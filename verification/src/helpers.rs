//! The headers of every HTTP answer, and the list of tweets in a request body.
use vstd::prelude::*;
use vstd::string::*;
use crate::json::{data_items, json_get, json_items, json_parse, json_str, parse_json, JsonData, JsonValue};
use crate::text::views;

verus! {

/// The header names and values that every answer carries, in this order.
pub open spec fn default_header_pairs() -> Seq<(Seq<char>, Seq<char>)> {
    seq![
        ("Content-Type"@, "application/json"@),
        ("Access-Control-Allow-Origin"@, "*"@),
        ("Access-Control-Allow-Headers"@, "Content-Type"@),
        ("Access-Control-Allow-Methods"@, "GET, POST, OPTIONS"@),
    ]
}

/// The views of a list of header pairs.
pub open spec fn header_views(headers: Seq<(String, String)>) -> Seq<(Seq<char>, Seq<char>)> {
    headers.map_values(|h: (String, String)| (h.0@, h.1@))
}

/// Whether no header name occurs twice.
pub open spec fn distinct_names(headers: Seq<(Seq<char>, Seq<char>)>) -> bool {
    forall|i: int, j: int|
        0 <= i < headers.len() && 0 <= j < headers.len() && i != j ==> headers[i].0 != headers[j].0
}

/// The CORS and content-type headers of every answer, as name and value. They
/// are a list of pairs whose names are distinct
/// ([`lemma_default_header_names_distinct`]): vstd describes a `HashMap`'s
/// contents only for keys that obey its key model, and `String` does not.
pub fn default_headers() -> (r: Vec<(String, String)>)
    ensures
        header_views(r@) == default_header_pairs(),
{
    let mut r: Vec<(String, String)> = Vec::new();
    r.push((String::from_str("Content-Type"), String::from_str("application/json")));
    r.push((String::from_str("Access-Control-Allow-Origin"), String::from_str("*")));
    r.push(
        (String::from_str("Access-Control-Allow-Headers"), String::from_str("Content-Type")),
    );
    r.push(
        (String::from_str("Access-Control-Allow-Methods"), String::from_str("GET, POST, OPTIONS")),
    );
    assert(header_views(r@) =~= default_header_pairs());
    r
}

/// The default headers name each header once, so they make a map.
pub proof fn lemma_default_header_names_distinct()
    ensures
        distinct_names(default_header_pairs()),
{
    reveal_strlit("Content-Type");
    reveal_strlit("Access-Control-Allow-Origin");
    reveal_strlit("Access-Control-Allow-Headers");
    reveal_strlit("Access-Control-Allow-Methods");
    let h = default_header_pairs();
    assert(h[0].0[0] != h[1].0[0]);
    assert(h[0].0[0] != h[2].0[0]);
    assert(h[0].0[0] != h[3].0[0]);
    assert(h[1].0[21] != h[2].0[21]);
    assert(h[1].0[21] != h[3].0[21]);
    assert(h[2].0[21] != h[3].0[21]);
}

/// Why a request body holds no list of tweets.
#[derive(Debug, PartialEq, Eq)]
pub enum ExtractError {
    /// The body is no JSON document; serde_json's words for why.
    InvalidJson(String),
    /// The document has no `tweets` field.
    MissingTweets,
    /// The `tweets` field is not an array.
    TweetsNotArray,
    /// An item of the `tweets` array is not a string.
    TweetNotString,
}

impl ExtractError {
    /// The text the error is reported with.
    pub fn message(&self) -> (r: String)
        ensures
            r@ == match self {
                ExtractError::InvalidJson(m) => m@,
                ExtractError::MissingTweets => "'tweets' field is missing"@,
                ExtractError::TweetsNotArray => "'tweets' is not an array"@,
                ExtractError::TweetNotString => "tweet is not a string"@,
            },
    {
        match self {
            ExtractError::InvalidJson(m) => m.clone(),
            ExtractError::MissingTweets => String::from_str("'tweets' field is missing"),
            ExtractError::TweetsNotArray => String::from_str("'tweets' is not an array"),
            ExtractError::TweetNotString => String::from_str("tweet is not a string"),
        }
    }
}

/// Whether every item is a string.
pub open spec fn all_strings(items: Seq<JsonData>) -> bool {
    forall|i: int| 0 <= i < items.len() ==> (#[trigger] json_str(items[i])) is Some
}

/// The strings of a list of items that are all strings.
pub open spec fn strings_of(items: Seq<JsonData>) -> Seq<Seq<char>> {
    Seq::new(items.len(), |i: int| json_str(items[i])->0)
}

/// The tweets a document lists under `tweets`, or why it lists none.
pub open spec fn tweets_of(doc: JsonData) -> Result<Seq<Seq<char>>, ExtractError> {
    match json_get(doc, "tweets"@) {
        None => Err(ExtractError::MissingTweets),
        Some(field) => match json_items(field) {
            None => Err(ExtractError::TweetsNotArray),
            Some(items) => if all_strings(items) {
                Ok(strings_of(items))
            } else {
                Err(ExtractError::TweetNotString)
            },
        },
    }
}

/// The tweets read from a document are exactly the items of its `tweets`
/// array, every one of them a string, in order; and a document whose `tweets`
/// array holds only strings always gives its tweets.
pub proof fn lemma_tweets_are_the_array_items(doc: JsonData)
    ensures
        tweets_of(doc) matches Ok(tweets) ==> {
            &&& json_get(doc, "tweets"@) is Some
            &&& json_items(json_get(doc, "tweets"@)->0) is Some
            &&& tweets.len() == json_items(json_get(doc, "tweets"@)->0)->0.len()
            &&& forall|i: int|
                0 <= i < tweets.len() ==> json_str(
                    #[trigger] json_items(json_get(doc, "tweets"@)->0)->0[i],
                ) == Some(tweets[i])
        },
        (json_get(doc, "tweets"@) matches Some(field) && json_items(field) matches Some(items)
            && forall|i: int| 0 <= i < items.len() ==> (#[trigger] json_str(items[i])) is Some)
            ==> tweets_of(doc) is Ok,
{
}

/// The tweets of a parsed request body: the strings of its `tweets` array.
pub fn tweets_from_json(doc: &JsonValue) -> (r: Result<Vec<String>, ExtractError>)
    ensures
        match r {
            Ok(tweets) => tweets_of(doc@) == Ok::<Seq<Seq<char>>, ExtractError>(views(tweets@)),
            Err(e) => tweets_of(doc@) == Err::<Seq<Seq<char>>, ExtractError>(e),
        },
{
    let field = match doc.get("tweets") {
        Some(f) => f,
        None => return Err(ExtractError::MissingTweets),
    };
    let items = match field.as_array() {
        Some(a) => a,
        None => return Err(ExtractError::TweetsNotArray),
    };
    let ghost data = data_items(items@);
    let mut tweets: Vec<String> = Vec::new();
    let n = items.len();
    let mut i: usize = 0;
    while i < n
        invariant
            n == items@.len(),
            i <= n,
            data == data_items(items@),
            json_get(doc@, "tweets"@) == Some(field@),
            json_items(field@) == Some(data),
            tweets@.len() == i,
            forall|k: int| 0 <= k < i ==> #[trigger] json_str(data[k]) == Some(tweets@[k]@),
        decreases n - i,
    {
        match items[i].as_str() {
            Some(s) => {
                tweets.push(String::from_str(s));
            },
            None => {
                assert(json_str(data[i as int]) is None);
                assert(!all_strings(data));
                return Err(ExtractError::TweetNotString);
            },
        }
        i = i + 1;
    }
    assert(all_strings(data));
    assert(views(tweets@) =~= strings_of(data));
    Ok(tweets)
}

/// The tweets of a request body `{"tweets": [...]}`.
pub fn extract_tweets(body: &[u8]) -> (r: Result<Vec<String>, ExtractError>)
    ensures
        match json_parse(body@) {
            Err(m) => r matches Err(ExtractError::InvalidJson(e)) && e@ == m,
            Ok(doc) => match r {
                Ok(tweets) => tweets_of(doc) == Ok::<Seq<Seq<char>>, ExtractError>(views(tweets@)),
                Err(e) => tweets_of(doc) == Err::<Seq<Seq<char>>, ExtractError>(e),
            },
        },
{
    match parse_json(body) {
        Ok(doc) => tweets_from_json(&doc),
        Err(m) => Err(ExtractError::InvalidJson(m)),
    }
}

} // verus!
