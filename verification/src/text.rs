//! Text building blocks: decimal numerals, numbered listings and joins.
use vstd::prelude::*;
use vstd::string::*;

verus! {

/// The character of a decimal digit.
pub open spec fn digit_char(d: nat) -> char {
    (48 + d) as char
}

/// The decimal numeral of `n`, most significant digit first, without leading zeros.
pub open spec fn decimal(n: nat) -> Seq<char>
    decreases n,
{
    if n < 10 {
        seq![digit_char(n)]
    } else {
        decimal(n / 10).push(digit_char(n % 10))
    }
}

/// `parts` joined with `sep` between each two neighbours.
pub open spec fn join(parts: Seq<Seq<char>>, sep: Seq<char>) -> Seq<char>
    decreases parts.len(),
{
    if parts.len() == 0 {
        Seq::empty()
    } else if parts.len() == 1 {
        parts[0]
    } else {
        join(parts.drop_last(), sep) + sep + parts.last()
    }
}

/// The line `"{i+1}. {item}"` for the item at index `i` of a listing.
pub open spec fn numbered_line(i: int, item: Seq<char>) -> Seq<char> {
    decimal((i + 1) as nat) + seq!['.', ' '] + item
}

/// Every item of `items` prefixed with its position, counting from one.
pub open spec fn numbered(items: Seq<Seq<char>>) -> Seq<Seq<char>> {
    Seq::new(items.len(), |i: int| numbered_line(i, items[i]))
}

/// The views of a sequence of strings.
pub open spec fn views(items: Seq<String>) -> Seq<Seq<char>> {
    items.map_values(|s: String| s@)
}

/// Whether `part` stands in `text` at some position.
pub open spec fn occurs_in(text: Seq<char>, part: Seq<char>) -> bool {
    exists|k: int| 0 <= k && k + part.len() <= text.len() && #[trigger] text.subrange(k, k + part.len()) == part
}

/// A part that stands in `text` stands in every text that holds `text` at
/// some position.
pub proof fn lemma_occurs_in_context(before: Seq<char>, text: Seq<char>, after: Seq<char>, part: Seq<char>)
    requires
        occurs_in(text, part),
    ensures
        occurs_in(before + text + after, part),
{
    let k = choose|k: int| 0 <= k && k + part.len() <= text.len() && #[trigger] text.subrange(k, k + part.len()) == part;
    let whole = before + text + after;
    let at = before.len() as int + k;
    assert(whole.subrange(at, at + part.len()) =~= text.subrange(k, k + part.len()));
}

/// Every part of a join stands in it: joining drops no part.
pub proof fn lemma_join_holds_every_part(parts: Seq<Seq<char>>, sep: Seq<char>, i: int)
    requires
        0 <= i < parts.len(),
    ensures
        occurs_in(join(parts, sep), parts[i]),
    decreases parts.len(),
{
    let j = join(parts, sep);
    if parts.len() == 1 {
        let k: int = 0;
        assert(j.subrange(k, k + parts[i].len()) =~= parts[i]);
    } else if i == parts.len() - 1 {
        let earlier = join(parts.drop_last(), sep);
        let at = (earlier.len() + sep.len()) as int;
        assert(j.subrange(at, at + parts[i].len()) =~= parts[i]);
    } else {
        lemma_join_holds_every_part(parts.drop_last(), sep, i);
        assert(parts.drop_last()[i] == parts[i]);
        lemma_occurs_in_context(Seq::empty(), join(parts.drop_last(), sep), sep + parts.last(), parts[i]);
        assert(Seq::<char>::empty() + join(parts.drop_last(), sep) + (sep + parts.last()) =~= j);
    }
}

/// The number a string of decimal digits stands for.
pub open spec fn digits_value(digits: Seq<char>) -> int
    decreases digits.len(),
{
    if digits.len() == 0 {
        0
    } else {
        digits_value(digits.drop_last()) * 10 + (digits.last() as int - 48)
    }
}

/// Whether every character is a decimal digit.
pub open spec fn all_decimal_digits(digits: Seq<char>) -> bool {
    forall|i: int| 0 <= i < digits.len() ==> '0' <= #[trigger] digits[i] <= '9'
}

/// The numeral of `n` is made of decimal digits, has no leading zero, and
/// reads back as `n`.
pub proof fn lemma_decimal_reads_back(n: nat)
    ensures
        decimal(n).len() >= 1,
        all_decimal_digits(decimal(n)),
        decimal(n)[0] != '0' || n == 0,
        digits_value(decimal(n)) == n,
    decreases n,
{
    if n >= 10 {
        lemma_decimal_reads_back(n / 10);
        let d = decimal(n);
        assert(d.drop_last() =~= decimal(n / 10));
        assert(d[0] == decimal(n / 10)[0]);
        assert forall|i: int| 0 <= i < d.len() implies '0' <= #[trigger] d[i] <= '9' by {
            if i < d.len() - 1 {
                assert(d[i] == decimal(n / 10)[i]);
            }
        }
        assert(((48 + n % 10) as char) as int == 48 + n % 10);
        assert(d.last() == digit_char(n % 10));
        vstd::arithmetic::div_mod::lemma_fundamental_div_mod(n as int, 10);
        assert(digits_value(d) == digits_value(decimal(n / 10)) * 10 + (n % 10));
        assert((n / 10) as int * 10 == 10 * (n / 10) as int);
    } else {
        assert(decimal(n).drop_last() =~= Seq::<char>::empty());
        assert(((48 + n) as char) as int == 48 + n);
        assert(digits_value(Seq::<char>::empty()) == 0);
        assert(digits_value(decimal(n)) == digits_value(decimal(n).drop_last()) * 10 + (decimal(n).last() as int - 48));
    }
}

/// The one-character string of a decimal digit.
fn digit_str(d: usize) -> (r: &'static str)
    requires
        d < 10,
    ensures
        r@ == seq![digit_char(d as nat)],
{
    proof {
        reveal_strlit("0");
        reveal_strlit("1");
        reveal_strlit("2");
        reveal_strlit("3");
        reveal_strlit("4");
        reveal_strlit("5");
        reveal_strlit("6");
        reveal_strlit("7");
        reveal_strlit("8");
        reveal_strlit("9");
    }
    match d {
        0 => "0",
        1 => "1",
        2 => "2",
        3 => "3",
        4 => "4",
        5 => "5",
        6 => "6",
        7 => "7",
        8 => "8",
        _ => "9",
    }
}

/// Appends the decimal numeral of `n` to `out`.
pub fn push_decimal(out: &mut String, n: usize)
    ensures
        final(out)@ == old(out)@ + decimal(n as nat),
    decreases n,
{
    if n < 10 {
        out.append(digit_str(n));
    } else {
        push_decimal(out, n / 10);
        out.append(digit_str(n % 10));
        assert(decimal(n as nat) == decimal((n / 10) as nat).push(digit_char((n % 10) as nat)));
    }
}

/// The decimal numeral of `n`, as `n.to_string()` writes it.
pub fn decimal_string(n: usize) -> (r: String)
    ensures
        r@ == decimal(n as nat),
{
    let mut out = String::new();
    push_decimal(&mut out, n);
    assert(out@ == decimal(n as nat));
    out
}

/// Whether two strings hold the same characters.
pub fn str_eq(a: &str, b: &str) -> (r: bool)
    ensures
        r == (a@ == b@),
{
    let a_owned = String::from_str(a);
    let b_owned = String::from_str(b);
    a_owned == b_owned
}

/// The items, each as the line `"{i+1}. {item}"`, joined with `sep`.
pub fn numbered_listing(items: &[String], sep: &str) -> (r: String)
    ensures
        r@ == join(numbered(views(items@)), sep@),
{
    let ghost lines = numbered(views(items@));
    let mut out = String::new();
    let n = items.len();
    let mut i: usize = 0;
    while i < n
        invariant
            n == items@.len(),
            i <= n,
            lines == numbered(views(items@)),
            out@ == join(lines.take(i as int), sep@),
        decreases n - i,
    {
        let ghost before = out@;
        if i > 0 {
            out.append(sep);
        }
        push_decimal(&mut out, i + 1);
        out.append(". ");
        out.append(items[i].as_str());
        proof {
            reveal_strlit(". ");
            assert(lines.take(i + 1).drop_last() =~= lines.take(i as int));
            assert(lines[i as int] == numbered_line(i as int, items@[i as int]@));
            if i == 0 {
                assert(out@ =~= lines[0]);
            } else {
                assert(out@ =~= before + sep@ + lines[i as int]);
            }
        }
        i = i + 1;
    }
    assert(lines.take(n as int) =~= lines);
    out
}

} // verus!
