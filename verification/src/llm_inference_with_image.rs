//! Asking a chat model that sees images which tweets break no rule: one user
//! message per tweet, with its photo where it has one.
use vstd::prelude::*;
use vstd::string::*;
use crate::text::{
    decimal, join, lemma_join_holds_every_part, lemma_occurs_in_context, numbered, numbered_line,
    numbered_listing, occurs_in, views,
};

verus! {

broadcast use vstd::string::group_string_axioms;

/// What one message of an image chat holds: text alone, or text with the
/// address of an image.
#[derive(Debug, PartialEq)]
pub enum ChatImageContent {
    Text(String),
    TextAndImage { text: String, image_url: String },
}

/// One message of an image chat.
#[derive(Debug, PartialEq)]
pub struct ChatImageMessage {
    pub role: String,
    pub content: ChatImageContent,
}

/// The settings of an image chat: the model, the messages and the token limit;
/// every other setting of the chat service keeps its default.
#[derive(Debug, PartialEq)]
pub struct ChatImageParams {
    pub model: String,
    pub messages: Vec<ChatImageMessage>,
    pub max_tokens: Option<i32>,
}

/// The text of the system instruction before the rules.
pub open spec fn instruction_head() -> Seq<char> {
    "For each tweet provided, which may contain text and/or an image, evaluate it against these rules: "@
}

/// The text of the system instruction after the rules.
pub open spec fn instruction_tail() -> Seq<char> {
    ". Each tweet must result in exactly one digit in your output: '1' for compliance and '0' for violation. Assemble a binary sequence reflecting the evaluation of each tweet sequentially. Ensure the binary sequence directly corresponds to the number of tweets evaluated. Do not describe the images, provide additional information, or output anything other than the binary sequence. Focus solely on the evaluation of compliance based on the provided rules."@
}

/// The instruction that asks for one digit per tweet under the given rules.
pub fn system_prompt_text(rules_string: &str) -> (r: String)
    ensures
        r@ == instruction_head() + rules_string@ + instruction_tail(),
{
    let mut text = String::from_str(
        "For each tweet provided, which may contain text and/or an image, evaluate it against these rules: ",
    );
    text.append(rules_string);
    text.append(
        ". Each tweet must result in exactly one digit in your output: '1' for compliance and '0' for violation. Assemble a binary sequence reflecting the evaluation of each tweet sequentially. Ensure the binary sequence directly corresponds to the number of tweets evaluated. Do not describe the images, provide additional information, or output anything other than the binary sequence. Focus solely on the evaluation of compliance based on the provided rules.",
    );
    text
}

/// The verdicts in a model's answer, one per `0` or `1` in it, as for a text
/// chat.
pub fn parse_response_to_bool_array(response: &str) -> (r: Vec<bool>)
    ensures
        r@ == crate::llm_inference::verdicts(response@),
{
    crate::llm_inference::parse_response_to_bool_array(response)
}

/// The model that judges tweets with their images.
pub open spec fn image_model() -> Seq<char> {
    "gpt-4-turbo"@
}

/// The parameters of an image chat: the image model, the messages, at most 40
/// answer tokens.
pub fn create_chat_params(messages: Vec<ChatImageMessage>) -> (r: ChatImageParams)
    ensures
        r.model@ == image_model(),
        r.messages == messages,
        r.max_tokens == Some(40i32),
{
    ChatImageParams { model: String::from_str("gpt-4-turbo"), messages, max_tokens: Some(40) }
}

/// The content of the system message: `Tweet: ` and the instruction with the
/// numbered rules, one per line.
pub open spec fn system_content(rules: Seq<Seq<char>>) -> Seq<char> {
    "Tweet: "@ + instruction_head() + join(numbered(rules), seq!['\n']) + instruction_tail()
}

/// Whether `message` is the user message of a tweet and its photo address,
/// if it has one.
pub open spec fn is_tweet_message(
    message: ChatImageMessage,
    tweet: Seq<char>,
    photo: Option<String>,
) -> bool {
    &&& message.role@ == "user"@
    &&& match photo {
        Some(url) => message.content matches ChatImageContent::TextAndImage { text, image_url } && text@
            == tweet && image_url@ == url@,
        None => message.content matches ChatImageContent::Text(text) && text@ == tweet,
    }
}

/// The message of a tweet is a user message that carries the tweet's text,
/// with the photo's address exactly when the tweet has a photo.
pub proof fn lemma_tweet_message_carries_text_and_photo(
    message: ChatImageMessage,
    tweet: Seq<char>,
    photo: Option<String>,
)
    requires
        is_tweet_message(message, tweet, photo),
    ensures
        message.role@ == "user"@,
        (message.content is TextAndImage) <==> (photo is Some),
        match message.content {
            ChatImageContent::Text(text) => text@ == tweet,
            ChatImageContent::TextAndImage { text, image_url } => text@ == tweet && image_url@
                == photo->0@,
        },
{
}

/// The number of tweets that are sent: as many as have both a text and a
/// photo entry.
pub open spec fn paired_len(tweets: int, photos: int) -> int {
    if tweets <= photos {
        tweets
    } else {
        photos
    }
}

/// As many tweets are sent as both lists have entries: the smaller of the two
/// lengths, so with one photo entry per tweet every tweet is sent.
pub proof fn lemma_paired_len_is_the_smaller(tweets: int, photos: int)
    requires
        0 <= tweets,
        0 <= photos,
    ensures
        paired_len(tweets, photos) <= tweets,
        paired_len(tweets, photos) <= photos,
        paired_len(tweets, photos) == tweets || paired_len(tweets, photos) == photos,
{
}

/// The system message lists every rule on its numbered line
/// `"{i+1}. {rule}"`: no rule is left out.
pub proof fn lemma_system_content_lists_every_rule(rules: Seq<Seq<char>>)
    ensures
        forall|i: int|
            0 <= i < rules.len() ==> occurs_in(
                system_content(rules),
                decimal((i + 1) as nat) + seq!['.', ' '] + #[trigger] rules[i],
            ),
{
    let rules_text = join(numbered(rules), seq!['\n']);
    assert(system_content(rules) =~= ("Tweet: "@ + instruction_head()) + rules_text + instruction_tail());
    assert forall|i: int| 0 <= i < rules.len() implies occurs_in(
        system_content(rules),
        decimal((i + 1) as nat) + seq!['.', ' '] + #[trigger] rules[i],
    ) by {
        lemma_join_holds_every_part(numbered(rules), seq!['\n'], i);
        assert(numbered(rules)[i] == numbered_line(i, rules[i]));
        lemma_occurs_in_context("Tweet: "@ + instruction_head(), rules_text, instruction_tail(), numbered(rules)[i]);
    }
}

/// The image chat that asks for one verdict per tweet: the system instruction
/// with the rules, then one user message per tweet, with its photo where it has
/// one. Tweets and photos are paired in order, as many as both lists have.
pub fn image_chat_params(
    tweet_contents: &[String],
    photo_urls: &[Option<String>],
    rules: &[String],
) -> (r: ChatImageParams)
    ensures
        r.model@ == image_model(),
        r.max_tokens == Some(40i32),
        r.messages@.len() == 1 + paired_len(tweet_contents@.len() as int, photo_urls@.len() as int),
        r.messages@[0].role@ == "system"@,
        r.messages@[0].content matches ChatImageContent::Text(text) && text@ == system_content(
            views(rules@),
        ),
        forall|k: int|
            0 <= k < paired_len(tweet_contents@.len() as int, photo_urls@.len() as int)
                ==> is_tweet_message(
                #[trigger] r.messages@[k + 1],
                tweet_contents@[k]@,
                photo_urls@[k],
            ),
{
    let rules_string = numbered_listing(rules, "\n");
    proof {
        reveal_strlit("\n");
        assert("\n"@ =~= seq!['\n']);
    }
    let instruction = system_prompt_text(rules_string.as_str());
    let mut system_text = String::from_str("Tweet: ");
    system_text.append(instruction.as_str());
    assert(system_text@ =~= system_content(views(rules@)));
    let mut final_message: Vec<ChatImageMessage> = Vec::new();
    final_message.push(
        ChatImageMessage {
            role: String::from_str("system"),
            content: ChatImageContent::Text(system_text),
        },
    );
    let n = if tweet_contents.len() <= photo_urls.len() {
        tweet_contents.len()
    } else {
        photo_urls.len()
    };
    let mut k: usize = 0;
    while k < n
        invariant
            n == paired_len(tweet_contents@.len() as int, photo_urls@.len() as int),
            k <= n,
            final_message@.len() == k + 1,
            final_message@[0].role@ == "system"@,
            final_message@[0].content matches ChatImageContent::Text(text) && text@
                == system_content(views(rules@)),
            forall|j: int|
                0 <= j < k ==> is_tweet_message(
                    #[trigger] final_message@[j + 1],
                    tweet_contents@[j]@,
                    photo_urls@[j],
                ),
        decreases n - k,
    {
        let tweet = &tweet_contents[k];
        let content = match &photo_urls[k] {
            Some(url) => ChatImageContent::TextAndImage {
                text: String::from_str(tweet.as_str()),
                image_url: String::from_str(url.as_str()),
            },
            None => ChatImageContent::Text(String::from_str(tweet.as_str())),
        };
        final_message.push(ChatImageMessage { role: String::from_str("user"), content });
        assert(is_tweet_message(final_message@[k + 1], tweet_contents@[k as int]@, photo_urls@[k as int]));
        k = k + 1;
    }
    create_chat_params(final_message)
}

} // verus!
