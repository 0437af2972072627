//! A JSON document as plain values, its mathematical view, and the calls into
//! serde_json that read and write JSON text.
use vstd::prelude::*;
use vstd::string::*;

verus! {

#[verifier::external_type_specification]
#[verifier::external_body]
pub struct ExSerdeJsonValue(serde_json::Value);

#[verifier::external_type_specification]
#[verifier::external_body]
pub struct ExSerdeJsonNumber(serde_json::Number);

/// A JSON value. An object keeps its entries as a list of key and value. A
/// number is carried through as serde_json's number: nothing here reads it.
#[derive(Debug, PartialEq)]
pub enum JsonValue {
    Null,
    Bool(bool),
    Number(serde_json::Number),
    String(String),
    Array(Vec<JsonValue>),
    Object(Vec<(String, JsonValue)>),
}

/// The view of a [`JsonValue`]: strings as their characters, arrays and
/// objects as sequences.
pub enum JsonData {
    Null,
    Bool(bool),
    Number(serde_json::Number),
    String(Seq<char>),
    Array(Seq<JsonData>),
    Object(Seq<(Seq<char>, JsonData)>),
}

impl View for JsonValue {
    type V = JsonData;

    open spec fn view(&self) -> JsonData
        decreases self,
    {
        match self {
            JsonValue::Null => JsonData::Null,
            JsonValue::Bool(b) => JsonData::Bool(*b),
            JsonValue::Number(n) => JsonData::Number(*n),
            JsonValue::String(s) => JsonData::String(s@),
            JsonValue::Array(items) => JsonData::Array(
                Seq::new(
                    items@.len(),
                    |i: int|
                        if 0 <= i < items@.len() {
                            items@[i].view()
                        } else {
                            JsonData::Null
                        },
                ),
            ),
            JsonValue::Object(entries) => JsonData::Object(
                Seq::new(
                    entries@.len(),
                    |i: int|
                        (
                            entries@[i].0@,
                            if 0 <= i < entries@.len() {
                                entries@[i].1.view()
                            } else {
                                JsonData::Null
                            },
                        ),
                ),
            ),
        }
    }
}

/// The views of a list of values.
pub open spec fn data_items(items: Seq<JsonValue>) -> Seq<JsonData> {
    Seq::new(items.len(), |i: int| items[i]@)
}

/// The views of a list of object entries.
pub open spec fn data_entries(entries: Seq<(String, JsonValue)>) -> Seq<(Seq<char>, JsonData)> {
    Seq::new(entries.len(), |i: int| (entries[i].0@, entries[i].1@))
}

/// The view of an array is the array of the items' views.
pub proof fn lemma_array_view(items: Vec<JsonValue>)
    ensures
        JsonValue::Array(items)@ == JsonData::Array(data_items(items@)),
{
    assert(JsonValue::Array(items)@->Array_0 =~= data_items(items@));
}

/// The view of an object is the object of the entries' views.
pub proof fn lemma_object_view(entries: Vec<(String, JsonValue)>)
    ensures
        JsonValue::Object(entries)@ == JsonData::Object(data_entries(entries@)),
{
    assert(JsonValue::Object(entries)@->Object_0 =~= data_entries(entries@));
}

/// The value under `key` among `entries`: that of the first entry with this key.
pub open spec fn lookup(entries: Seq<(Seq<char>, JsonData)>, key: Seq<char>) -> Option<JsonData>
    decreases entries.len(),
{
    if entries.len() == 0 {
        None
    } else if entries[0].0 == key {
        Some(entries[0].1)
    } else {
        lookup(entries.drop_first(), key)
    }
}

/// A lookup finds the first entry with the key: it gives that entry's value,
/// and nothing exactly when no entry has the key.
pub proof fn lemma_lookup_finds_first_entry(entries: Seq<(Seq<char>, JsonData)>, key: Seq<char>)
    ensures
        lookup(entries, key) is None <==> forall|j: int| 0 <= j < entries.len() ==> #[trigger] entries[j].0 != key,
        lookup(entries, key) matches Some(v) ==> exists|j: int|
            0 <= j < entries.len() && #[trigger] entries[j] == (key, v) && forall|l: int|
                0 <= l < j ==> #[trigger] entries[l].0 != key,
    decreases entries.len(),
{
    if entries.len() > 0 {
        let rest = entries.drop_first();
        lemma_lookup_finds_first_entry(rest, key);
        if entries[0].0 == key {
            assert(entries[0] == (key, entries[0].1));
        } else {
            assert forall|j: int| 0 <= j < rest.len() implies #[trigger] rest[j] == entries[j + 1] by {}
            if lookup(rest, key) is None {
                assert forall|j: int| 0 <= j < entries.len() implies #[trigger] entries[j].0 != key by {
                    if j > 0 {
                        assert(entries[j] == rest[j - 1]);
                    }
                }
            } else {
                let v = lookup(rest, key)->0;
                let j = choose|j: int|
                    0 <= j < rest.len() && #[trigger] rest[j] == (key, v) && forall|l: int|
                        0 <= l < j ==> #[trigger] rest[l].0 != key;
                assert(entries[j + 1] == (key, v));
                assert forall|l: int| 0 <= l < j + 1 implies #[trigger] entries[l].0 != key by {
                    if l > 0 {
                        assert(entries[l] == rest[l - 1]);
                    }
                }
            }
        }
    }
}

/// What `value.get(key)` gives: the entry's value when `value` is an object
/// with that key, nothing otherwise.
pub open spec fn json_get(value: JsonData, key: Seq<char>) -> Option<JsonData> {
    match value {
        JsonData::Object(entries) => lookup(entries, key),
        _ => None,
    }
}

/// The string a value holds, if it is a string.
pub open spec fn json_str(value: JsonData) -> Option<Seq<char>> {
    match value {
        JsonData::String(s) => Some(s),
        _ => None,
    }
}

/// The boolean a value holds, if it is a boolean.
pub open spec fn json_bool(value: JsonData) -> Option<bool> {
    match value {
        JsonData::Bool(b) => Some(b),
        _ => None,
    }
}

/// The items a value holds, if it is an array.
pub open spec fn json_items(value: JsonData) -> Option<Seq<JsonData>> {
    match value {
        JsonData::Array(items) => Some(items),
        _ => None,
    }
}

/// The string under `key`, when `value` is an object whose entry there is a string.
pub open spec fn field_str(value: JsonData, key: Seq<char>) -> Option<Seq<char>> {
    match json_get(value, key) {
        Some(v) => json_str(v),
        None => None,
    }
}

/// The boolean under `key`, when `value` is an object whose entry there is a boolean.
pub open spec fn field_bool(value: JsonData, key: Seq<char>) -> Option<bool> {
    match json_get(value, key) {
        Some(v) => json_bool(v),
        None => None,
    }
}

/// The items under `key`, when `value` is an object whose entry there is an array.
pub open spec fn field_items(value: JsonData, key: Seq<char>) -> Option<Seq<JsonData>> {
    match json_get(value, key) {
        Some(v) => json_items(v),
        None => None,
    }
}

impl JsonValue {
    /// The value under `key`, when `self` is an object with that key.
    pub fn get(&self, key: &str) -> (r: Option<&JsonValue>)
        ensures
            match r {
                Some(v) => json_get(self@, key@) == Some(v@),
                None => json_get(self@, key@) is None,
            },
    {
        match self {
            JsonValue::Object(entries) => {
                let ghost data = data_entries(entries@);
                proof {
                    lemma_object_view(*entries);
                }
                let wanted = String::from_str(key);
                let n = entries.len();
                let mut i: usize = 0;
                assert(data.skip(0) =~= data);
                while i < n
                    invariant
                        n == entries@.len(),
                        i <= n,
                        wanted@ == key@,
                        data == data_entries(entries@),
                        json_get(self@, key@) == lookup(data, key@),
                        lookup(data, key@) == lookup(data.skip(i as int), key@),
                    decreases n - i,
                {
                    assert(data.skip(i as int).drop_first() =~= data.skip(i + 1));
                    assert(data.skip(i as int)[0] == (entries@[i as int].0@, entries@[i as int].1@));
                    if entries[i].0 == wanted {
                        return Some(&entries[i].1);
                    }
                    i = i + 1;
                }
                None
            },
            _ => None,
        }
    }

    /// The string `self` holds, if it is a string.
    pub fn as_str(&self) -> (r: Option<&str>)
        ensures
            match r {
                Some(s) => json_str(self@) == Some(s@),
                None => json_str(self@) is None,
            },
    {
        match self {
            JsonValue::String(s) => Some(s.as_str()),
            _ => None,
        }
    }

    /// The boolean `self` holds, if it is a boolean.
    pub fn as_bool(&self) -> (r: Option<bool>)
        ensures
            r == json_bool(self@),
    {
        match self {
            JsonValue::Bool(b) => Some(*b),
            _ => None,
        }
    }

    /// The items `self` holds, if it is an array.
    pub fn as_array(&self) -> (r: Option<&Vec<JsonValue>>)
        ensures
            match r {
                Some(items) => json_items(self@) == Some(data_items(items@)),
                None => json_items(self@) is None,
            },
    {
        match self {
            JsonValue::Array(items) => {
                proof {
                    lemma_array_view(*items);
                }
                Some(items)
            },
            _ => None,
        }
    }
}

/// What `serde_json::from_slice::<serde_json::Value>` makes of `bytes`: the
/// document, or the text of serde_json's error where the bytes are no JSON
/// document.
pub uninterp spec fn json_parse(bytes: Seq<u8>) -> Result<JsonData, Seq<char>>;

/// The JSON text that `serde_json::to_string` writes for a value. serde_json
/// keeps an object's keys in a sorted map, so the text lists them in sorted
/// order, each once.
pub uninterp spec fn json_text(value: JsonData) -> Seq<char>;

/// The value serde_json builds, taken apart into a [`JsonValue`] variant by
/// variant. It is the recursive half of [`parse_json`]; nothing is claimed of
/// it on its own.
#[verifier::external_body]
fn from_serde(value: serde_json::Value) -> JsonValue {
    match value {
        serde_json::Value::Null => JsonValue::Null,
        serde_json::Value::Bool(b) => JsonValue::Bool(b),
        serde_json::Value::Number(n) => JsonValue::Number(n),
        serde_json::Value::String(s) => JsonValue::String(s),
        serde_json::Value::Array(a) => JsonValue::Array(a.into_iter().map(from_serde).collect()),
        serde_json::Value::Object(o) => JsonValue::Object(o.into_iter().map(|(k, v)| (k, from_serde(v))).collect()),
    }
}

/// A [`JsonValue`] put back together as serde_json's value, variant by
/// variant. It is the recursive half of [`json_to_string`]; nothing is claimed
/// of it on its own.
#[verifier::external_body]
fn to_serde(value: &JsonValue) -> serde_json::Value {
    match value {
        JsonValue::Null => serde_json::Value::Null,
        JsonValue::Bool(b) => serde_json::Value::Bool(*b),
        JsonValue::Number(n) => serde_json::Value::Number(n.clone()),
        JsonValue::String(s) => serde_json::Value::String(s.clone()),
        JsonValue::Array(a) => serde_json::Value::Array(a.iter().map(to_serde).collect()),
        JsonValue::Object(o) => serde_json::Value::Object(o.iter().map(|(k, v)| (k.clone(), to_serde(v))).collect()),
    }
}

/// Calls `serde_json::from_slice::<serde_json::Value>` on `bytes`. Claimed: the
/// outcome is a function of the bytes alone (named [`json_parse`]): the
/// document's view, or the text of serde_json's error.
#[verifier::external_body]
pub(crate) fn parse_json(bytes: &[u8]) -> (r: Result<JsonValue, String>)
    ensures
        match r {
            Ok(v) => json_parse(bytes@) == Ok::<JsonData, Seq<char>>(v@),
            Err(e) => json_parse(bytes@) == Err::<JsonData, Seq<char>>(e@),
        },
{
    match serde_json::from_slice::<serde_json::Value>(bytes) {
        Ok(v) => Ok(from_serde(v)),
        Err(e) => Err(e.to_string()),
    }
}

/// Calls `serde_json::to_string` on the value. Claimed: the text is a function
/// of the value's view alone (named [`json_text`]). Writing a
/// `serde_json::Value` does not fail: its map keys are strings.
#[verifier::external_body]
pub(crate) fn json_to_string(value: &JsonValue) -> (r: String)
    ensures
        r@ == json_text(value@),
{
    match serde_json::to_string(&to_serde(value)) {
        Ok(s) => s,
        Err(_) => String::new(),
    }
}

} // verus!
