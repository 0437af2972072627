//! Asking a chat model, in one prompt, which tweets break no rule, and reading
//! its answer.
use vstd::prelude::*;
use vstd::string::*;
use crate::llm_types::{ChatParams, Message};
use crate::text::{
    decimal, join, lemma_join_holds_every_part, lemma_occurs_in_context, numbered, numbered_line,
    numbered_listing, occurs_in, push_decimal, views,
};

verus! {

broadcast use vstd::string::group_string_axioms;

/// The verdicts a model's answer spells: `true` for each `1`, `false` for each
/// `0`, in order; every other character is skipped.
pub open spec fn verdicts(answer: Seq<char>) -> Seq<bool>
    decreases answer.len(),
{
    if answer.len() == 0 {
        Seq::empty()
    } else {
        let earlier = verdicts(answer.drop_last());
        if answer.last() == '1' {
            earlier.push(true)
        } else if answer.last() == '0' {
            earlier.push(false)
        } else {
            earlier
        }
    }
}

/// Whether every character of the answer is `0` or `1`.
pub open spec fn only_digits(answer: Seq<char>) -> bool {
    forall|i: int| 0 <= i < answer.len() ==> answer[i] == '0' || answer[i] == '1'
}

/// An answer made only of the digits `0` and `1` gives one verdict per
/// character: `true` exactly where the character is `1`.
pub proof fn lemma_digit_answer(answer: Seq<char>)
    requires
        only_digits(answer),
    ensures
        verdicts(answer).len() == answer.len(),
        forall|i: int| 0 <= i < answer.len() ==> verdicts(answer)[i] == (answer[i] == '1'),
    decreases answer.len(),
{
    if answer.len() > 0 {
        let rest = answer.drop_last();
        assert(only_digits(rest)) by {
            assert forall|i: int| 0 <= i < rest.len() implies rest[i] == '0' || rest[i] == '1' by {
                assert(rest[i] == answer[i]);
            }
        }
        lemma_digit_answer(rest);
        assert forall|i: int| 0 <= i < answer.len() implies verdicts(answer)[i] == (answer[i]
            == '1') by {
            if i < answer.len() - 1 {
                assert(rest[i] == answer[i]);
            }
        }
    }
}

/// A single character is one verdict if it is `1` (pass) or `0` (block),
/// and none otherwise.
pub proof fn lemma_verdict_of_one_char(c: char)
    ensures
        verdicts(seq![c]) == if c == '1' {
            seq![true]
        } else if c == '0' {
            seq![false]
        } else {
            Seq::<bool>::empty()
        },
{
    assert(seq![c].drop_last() =~= Seq::<char>::empty());
    assert(seq![c].last() == c);
    assert(verdicts(Seq::<char>::empty()) == Seq::<bool>::empty());
    assert(Seq::<bool>::empty().push(true) =~= seq![true]);
    assert(Seq::<bool>::empty().push(false) =~= seq![false]);
}

/// Reading an answer in two pieces gives the verdicts of the first piece
/// followed by those of the second: no character changes how the rest of the
/// answer is read.
pub proof fn lemma_verdicts_of_concat(a: Seq<char>, b: Seq<char>)
    ensures
        verdicts(a + b) == verdicts(a) + verdicts(b),
    decreases b.len(),
{
    if b.len() == 0 {
        assert(a + b =~= a);
        assert(verdicts(a) + verdicts(b) =~= verdicts(a));
    } else {
        assert((a + b).drop_last() =~= a + b.drop_last());
        assert((a + b).last() == b.last());
        lemma_verdicts_of_concat(a, b.drop_last());
        if b.last() == '1' {
            assert(verdicts(a) + verdicts(b.drop_last()).push(true) =~= (verdicts(a) + verdicts(
                b.drop_last(),
            )).push(true));
        } else if b.last() == '0' {
            assert(verdicts(a) + verdicts(b.drop_last()).push(false) =~= (verdicts(a) + verdicts(
                b.drop_last(),
            )).push(false));
        }
    }
}

/// The verdicts in a model's answer, one per `0` or `1` in it.
pub fn parse_response_to_bool_array(response: &str) -> (r: Vec<bool>)
    ensures
        r@ == verdicts(response@),
{
    let n = response.unicode_len();
    let mut out: Vec<bool> = Vec::new();
    let mut i: usize = 0;
    while i < n
        invariant
            n == response@.len(),
            i <= n,
            out@ == verdicts(response@.take(i as int)),
        decreases n - i,
    {
        let c = response.get_char(i);
        assert(response@.take(i + 1).drop_last() =~= response@.take(i as int));
        assert(response@.take(i + 1).last() == c);
        if c == '1' {
            out.push(true);
        } else if c == '0' {
            out.push(false);
        }
        i = i + 1;
    }
    assert(response@.take(n as int) =~= response@);
    out
}

/// The model that judges tweets by text alone.
pub open spec fn text_model() -> Seq<char> {
    "gpt-4-turbo-preview"@
}

/// The chat parameters of a request: the text model, the messages, at most
/// 40 answer tokens, and every other option left unset.
pub fn create_chat_params(messages: Vec<Message>) -> (r: ChatParams)
    ensures
        r.model@ == text_model(),
        r.messages == messages,
        r.max_tokens == Some(40i32),
        r.has_only_model_messages_and_max_tokens(),
{
    ChatParams {
        model: String::from_str("gpt-4-turbo-preview"),
        messages,
        frequency_penalty: None,
        logit_bias: None,
        logprobs: None,
        top_logprobs: None,
        max_tokens: Some(40),
        n: None,
        presence_penalty: None,
        response_format: None,
        seed: None,
        stop: None,
        stream: None,
        temperature: None,
        top_p: None,
        tools: None,
        tool_choice: None,
        user: None,
    }
}

/// The separator between two tweets in the prompt.
pub open spec fn tweet_separator() -> Seq<char> {
    "\n<ENDOFTWEET>\n"@
}

/// The text of the prompt before the rules.
pub open spec fn prompt_head() -> Seq<char> {
    "\nI am going to give you a series of tweets, and a series of rules. \n\nThe rules are: \n"@
}

/// The text of the prompt between the rules and the tweets.
pub open spec fn prompt_between() -> Seq<char> {
    "\n----------\n\nThe tweets are: \n"@
}

/// The text of the prompt between the tweets and their count.
pub open spec fn prompt_instructions() -> Seq<char> {
    "\n\n----------\nFor each of the tweets, respond 0 if they break one or more rules, and 1 if they don't break any rules. \nDo not answer with anything else but 0 or 1. No part of the answer should contain anything but the symbols 0 or 1. There are a total of "@
}

/// The text of the prompt between the two counts.
pub open spec fn prompt_count_middle() -> Seq<char> {
    " tweets, meaning your answer should be "@
}

/// The text of the prompt after the counts.
pub open spec fn prompt_tail() -> Seq<char> {
    " digits long. The tweets are separated by <ENDOFTWEET> and are numbered, this is how you can separate them out. \n"@
}

/// The prompt that asks for one digit per tweet: the numbered rules, one per
/// line, then the numbered tweets, separated by `<ENDOFTWEET>` lines, then the
/// instructions, which give the number of tweets twice.
pub open spec fn inference_prompt(tweets: Seq<Seq<char>>, rules: Seq<Seq<char>>) -> Seq<char> {
    prompt_head() + join(numbered(rules), seq!['\n']) + prompt_between() + join(
        numbered(tweets),
        tweet_separator(),
    ) + prompt_instructions() + decimal(tweets.len()) + prompt_count_middle() + decimal(
        tweets.len(),
    ) + prompt_tail()
}

/// The prompt lists every rule and every tweet, each on its numbered line
/// `"{i+1}. {text}"`: no rule and no tweet is left out.
pub proof fn lemma_prompt_lists_every_rule_and_tweet(tweets: Seq<Seq<char>>, rules: Seq<Seq<char>>)
    ensures
        forall|i: int|
            0 <= i < rules.len() ==> occurs_in(
                inference_prompt(tweets, rules),
                decimal((i + 1) as nat) + seq!['.', ' '] + #[trigger] rules[i],
            ),
        forall|i: int|
            0 <= i < tweets.len() ==> occurs_in(
                inference_prompt(tweets, rules),
                decimal((i + 1) as nat) + seq!['.', ' '] + #[trigger] tweets[i],
            ),
{
    let rules_text = join(numbered(rules), seq!['\n']);
    let tweets_text = join(numbered(tweets), tweet_separator());
    let after_rules = prompt_between() + tweets_text + prompt_instructions() + decimal(tweets.len())
        + prompt_count_middle() + decimal(tweets.len()) + prompt_tail();
    let before_tweets = prompt_head() + rules_text + prompt_between();
    let after_tweets = prompt_instructions() + decimal(tweets.len()) + prompt_count_middle() + decimal(
        tweets.len(),
    ) + prompt_tail();
    assert(inference_prompt(tweets, rules) =~= prompt_head() + rules_text + after_rules);
    assert(inference_prompt(tweets, rules) =~= before_tweets + tweets_text + after_tweets);
    assert forall|i: int| 0 <= i < rules.len() implies occurs_in(
        inference_prompt(tweets, rules),
        decimal((i + 1) as nat) + seq!['.', ' '] + #[trigger] rules[i],
    ) by {
        lemma_join_holds_every_part(numbered(rules), seq!['\n'], i);
        assert(numbered(rules)[i] == numbered_line(i, rules[i]));
        lemma_occurs_in_context(prompt_head(), rules_text, after_rules, numbered(rules)[i]);
    }
    assert forall|i: int| 0 <= i < tweets.len() implies occurs_in(
        inference_prompt(tweets, rules),
        decimal((i + 1) as nat) + seq!['.', ' '] + #[trigger] tweets[i],
    ) by {
        lemma_join_holds_every_part(numbered(tweets), tweet_separator(), i);
        assert(numbered(tweets)[i] == numbered_line(i, tweets[i]));
        lemma_occurs_in_context(before_tweets, tweets_text, after_tweets, numbered(tweets)[i]);
    }
}

/// The instruction of the system message.
pub open spec fn system_instruction() -> Seq<char> {
    "You are a helpful assistant that will only answer with 0 or 1"@
}

/// The user prompt that lists the rules and the tweets.
pub fn build_prompt(tweets: &[String], rules: &[String]) -> (r: String)
    ensures
        r@ == inference_prompt(views(tweets@), views(rules@)),
{
    let joined_tweets = numbered_listing(tweets, "\n<ENDOFTWEET>\n");
    let rules_text = numbered_listing(rules, "\n");
    proof {
        reveal_strlit("\n");
    }
    let mut content = String::from_str(
        "\nI am going to give you a series of tweets, and a series of rules. \n\nThe rules are: \n",
    );
    content.append(rules_text.as_str());
    content.append("\n----------\n\nThe tweets are: \n");
    content.append(joined_tweets.as_str());
    content.append(
        "\n\n----------\nFor each of the tweets, respond 0 if they break one or more rules, and 1 if they don't break any rules. \nDo not answer with anything else but 0 or 1. No part of the answer should contain anything but the symbols 0 or 1. There are a total of ",
    );
    push_decimal(&mut content, tweets.len());
    content.append(" tweets, meaning your answer should be ");
    push_decimal(&mut content, tweets.len());
    content.append(
        " digits long. The tweets are separated by <ENDOFTWEET> and are numbered, this is how you can separate them out. \n",
    );
    assert(views(tweets@).len() == tweets@.len());
    assert("\n"@ =~= seq!['\n']);
    assert(content@ =~= inference_prompt(views(tweets@), views(rules@)));
    content
}

/// The chat request that asks the text model for one verdict per tweet: a
/// system message that allows only `0` and `1`, then the prompt.
pub fn inference_chat_params(tweets: &[String], rules: &[String]) -> (r: ChatParams)
    ensures
        r.model@ == text_model(),
        r.max_tokens == Some(40i32),
        r.has_only_model_messages_and_max_tokens(),
        r.messages@.len() == 2,
        r.messages@[0].role@ == "system"@,
        r.messages@[0].content@ == system_instruction(),
        r.messages@[1].role@ == "user"@,
        r.messages@[1].content@ == inference_prompt(views(tweets@), views(rules@)),
{
    let content = build_prompt(tweets, rules);
    let system_prompt = Message {
        role: String::from_str("system"),
        content: String::from_str("You are a helpful assistant that will only answer with 0 or 1"),
    };
    let test_prompt = Message { role: String::from_str("user"), content };
    let mut messages: Vec<Message> = Vec::new();
    messages.push(system_prompt);
    messages.push(test_prompt);
    create_chat_params(messages)
}

} // verus!
