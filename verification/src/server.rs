//! The decisions of the filter process: which messages it serves, where a
//! request goes, how tweets are judged, and what each answer says.
use vstd::prelude::*;
use vstd::string::*;
use crate::json::{
    data_entries, data_items, field_bool, field_items, field_str, json_parse, json_text,
    json_to_string, lemma_array_view, lemma_object_view, parse_json, JsonData, JsonValue,
};
use crate::structs::{settings_json, settings_text, State};
use crate::llm_inference::{only_digits, verdicts, lemma_digit_answer};
use crate::text::{str_eq, views};

verus! {

/// The process whose messages carry HTTP requests.
pub open spec fn http_server_process() -> Seq<char> {
    "http_server:distro:sys"@
}

/// Whether the process serves a message: one that comes from its own node and
/// from the HTTP server. Every other message is skipped.
pub fn accepts_message(our_node: &str, source_node: &str, source_process: &str) -> (r: bool)
    ensures
        r == (source_node@ == our_node@ && source_process@ == http_server_process()),
{
    str_eq(source_node, our_node) && str_eq(source_process, "http_server:distro:sys")
}

/// The method of an HTTP request, as far as the filter tells methods apart.
#[derive(Debug, PartialEq, Eq, Structural, Clone, Copy)]
pub enum HttpMethod {
    Options,
    Post,
    Other,
}

/// What a request is answered with.
#[derive(Debug, PartialEq, Eq, Structural, Clone, Copy)]
pub enum Route {
    /// The CORS preflight answer: status OK, the default headers, no body.
    Preflight,
    /// Judge the tweets in the body.
    Filter,
    /// Send the rules and the switch.
    FetchSettings,
    /// Store the settings in the body.
    SubmitSettings,
    /// No answer.
    Ignore,
}

/// Where a request goes: every `OPTIONS` request gets the preflight answer;
/// a `POST` goes by its path; nothing else is answered.
pub open spec fn route_of(method: HttpMethod, path: Seq<char>) -> Route {
    match method {
        HttpMethod::Options => Route::Preflight,
        HttpMethod::Post => if path == "/filter"@ {
            Route::Filter
        } else if path == "/fetch_settings"@ {
            Route::FetchSettings
        } else if path == "/submit_settings"@ {
            Route::SubmitSettings
        } else {
            Route::Ignore
        },
        HttpMethod::Other => Route::Ignore,
    }
}

/// Where a request with this method and bound path goes.
pub fn route_request(method: HttpMethod, bound_path: &str) -> (r: Route)
    ensures
        r == route_of(method, bound_path@),
{
    match method {
        HttpMethod::Options => Route::Preflight,
        HttpMethod::Post => {
            if str_eq(bound_path, "/filter") {
                Route::Filter
            } else if str_eq(bound_path, "/fetch_settings") {
                Route::FetchSettings
            } else if str_eq(bound_path, "/submit_settings") {
                Route::SubmitSettings
            } else {
                Route::Ignore
            }
        },
        HttpMethod::Other => Route::Ignore,
    }
}

/// The name of an HTTP method as given, if any.
pub open spec fn option_view(name: Option<String>) -> Option<Seq<char>> {
    match name {
        Some(s) => Some(s@),
        None => None,
    }
}

/// What the HTTP server's message `body` says of a request: the name of its
/// method, if the method parses, and its bound path; nothing where the message
/// is no HTTP request.
pub uninterp spec fn http_request_parts(body: Seq<u8>) -> Option<(Option<Seq<char>>, Seq<char>)>;

/// Calls kinode_process_lib's `HttpServerRequest::from_bytes` on the message
/// body, then `request()`, `method()` and `bound_path(None)`, and hands back
/// the method's name (`Method::as_str`) and the bound path. Claimed: the
/// outcome is a function of the bytes alone (named [`http_request_parts`]);
/// nothing where the bytes do not parse or hold a WebSocket message, no method
/// name where the method does not parse.
#[verifier::external_body]
fn decode_http_request(body: &[u8]) -> (r: Option<(Option<String>, String)>)
    ensures
        match r {
            None => http_request_parts(body@) is None,
            Some(parts) => http_request_parts(body@) == Some((option_view(parts.0), parts.1@)),
        },
{
    let request = match kinode_process_lib::http::HttpServerRequest::from_bytes(body) {
        Ok(request) => request,
        Err(_) => return None,
    };
    let http_request = match request.request() {
        Some(http_request) => http_request,
        None => return None,
    };
    let method = match http_request.method() {
        Ok(m) => Some(m.as_str().to_string()),
        Err(_) => None,
    };
    Some((method, http_request.bound_path(None).to_string()))
}

/// The method a name stands for: `OPTIONS` and `POST` as written, every other
/// name, or none, as another method.
pub open spec fn method_of(name: Option<Seq<char>>) -> HttpMethod {
    match name {
        Some(n) => if n == "OPTIONS"@ {
            HttpMethod::Options
        } else if n == "POST"@ {
            HttpMethod::Post
        } else {
            HttpMethod::Other
        },
        None => HttpMethod::Other,
    }
}

/// The method a name stands for.
pub fn method_from_name(name: &Option<String>) -> (r: HttpMethod)
    ensures
        r == method_of(option_view(*name)),
{
    match name {
        Some(n) => {
            if str_eq(n.as_str(), "OPTIONS") {
                HttpMethod::Options
            } else if str_eq(n.as_str(), "POST") {
                HttpMethod::Post
            } else {
                HttpMethod::Other
            }
        },
        None => HttpMethod::Other,
    }
}

/// A bound path without the leading `/` and process name, where it starts
/// with them; otherwise the path as it is.
pub open spec fn strip_process(path: Seq<char>, process: Seq<char>) -> Seq<char> {
    let prefix = seq!['/'] + process;
    if prefix.len() <= path.len() && path.take(prefix.len() as int) == prefix {
        path.skip(prefix.len() as int)
    } else {
        path
    }
}

/// The bound path without the prefix `/` and the process name.
pub fn strip_process_prefix(path: &str, process: &str) -> (r: String)
    ensures
        r@ == strip_process(path@, process@),
{
    let mut prefix = String::from_str("/");
    prefix.append(process);
    proof {
        reveal_strlit("/");
        assert("/"@ =~= seq!['/']);
    }
    let n = path.unicode_len();
    let k = prefix.as_str().unicode_len();
    if k <= n {
        let head = path.substring_char(0, k);
        if str_eq(head, prefix.as_str()) {
            return String::from_str(path.substring_char(k, n));
        }
    }
    String::from_str(path)
}

/// Where a message from the HTTP server goes: decoded, its method read and
/// its path stripped of the process prefix, then routed; nothing where the
/// message is no HTTP request.
pub fn request_route(body: &[u8], our_process: &str) -> (r: Option<Route>)
    ensures
        match http_request_parts(body@) {
            None => r is None,
            Some(parts) => r == Some(route_of(method_of(parts.0), strip_process(parts.1, our_process@))),
        },
{
    match decode_http_request(body) {
        None => None,
        Some(parts) => {
            let method = method_from_name(&parts.0);
            let path = strip_process_prefix(parts.1.as_str(), our_process);
            Some(route_request(method, path.as_str()))
        },
    }
}

/// The tweets of a filter request, as the extension sends them.
#[derive(Debug)]
pub struct FilterRequest {
    /// The `tweetId` of each tweet that has one that is a string.
    pub tweet_ids: Vec<String>,
    /// The `content` of each tweet that has one that is a string.
    pub tweet_contents: Vec<String>,
    /// The `photoUrl` of every tweet, where it is a string.
    pub photo_urls: Vec<Option<String>>,
    /// `debug`, `true` where absent.
    pub debug: bool,
    /// `withImage`, `false` where absent.
    pub with_image: bool,
}

/// The strings under `key` of those items that have one, in order.
pub open spec fn present_strs(items: Seq<JsonData>, key: Seq<char>) -> Seq<Seq<char>>
    decreases items.len(),
{
    if items.len() == 0 {
        Seq::empty()
    } else {
        let earlier = present_strs(items.drop_last(), key);
        match field_str(items.last(), key) {
            Some(s) => earlier.push(s),
            None => earlier,
        }
    }
}

/// Whether `photos` holds, for each item, its string under `photoUrl` if any.
pub open spec fn photos_of(photos: Seq<Option<String>>, items: Seq<JsonData>) -> bool {
    &&& photos.len() == items.len()
    &&& forall|i: int|
        0 <= i < items.len() ==> match #[trigger] field_str(items[i], "photoUrl"@) {
            Some(s) => photos[i] matches Some(p) && p@ == s,
            None => photos[i] is None,
        }
}

/// Whether `req` is what the filter reads from the document `doc`, whose
/// `tweets` array holds `items`.
pub open spec fn reads_request(req: FilterRequest, doc: JsonData, items: Seq<JsonData>) -> bool {
    &&& views(req.tweet_ids@) == present_strs(items, "tweetId"@)
    &&& views(req.tweet_contents@) == present_strs(items, "content"@)
    &&& photos_of(req.photo_urls@, items)
    &&& req.debug == match field_bool(doc, "debug"@) {
        Some(b) => b,
        None => true,
    }
    &&& req.with_image == match field_bool(doc, "withImage"@) {
        Some(b) => b,
        None => false,
    }
}

/// Copies the string under `key` of `item`, if it has one.
fn copy_field_str(item: &JsonValue, key: &str) -> (r: Option<String>)
    ensures
        match r {
            Some(s) => field_str(item@, key@) == Some(s@),
            None => field_str(item@, key@) is None,
        },
{
    match item.get(key) {
        Some(v) => match v.as_str() {
            Some(s) => Some(String::from_str(s)),
            None => None,
        },
        None => None,
    }
}

/// The boolean under `key` of `doc`, or `default` where there is none.
fn field_bool_or(doc: &JsonValue, key: &str, default: bool) -> (r: bool)
    ensures
        r == match field_bool(doc@, key@) {
            Some(b) => b,
            None => default,
        },
{
    match doc.get(key) {
        Some(v) => match v.as_bool() {
            Some(b) => b,
            None => default,
        },
        None => default,
    }
}

/// The tweets of a parsed filter request; nothing where `tweets` is no array.
pub fn filter_request_from_json(doc: &JsonValue) -> (r: Option<FilterRequest>)
    ensures
        match field_items(doc@, "tweets"@) {
            None => r is None,
            Some(items) => r matches Some(req) && reads_request(req, doc@, items),
        },
{
    let items = match doc.get("tweets") {
        Some(t) => match t.as_array() {
            Some(a) => a,
            None => return None,
        },
        None => return None,
    };
    let ghost seq_items = data_items(items@);
    let mut tweet_ids: Vec<String> = Vec::new();
    let mut tweet_contents: Vec<String> = Vec::new();
    let mut photo_urls: Vec<Option<String>> = Vec::new();
    let n = items.len();
    let mut i: usize = 0;
    while i < n
        invariant
            n == seq_items.len(),
            seq_items == data_items(items@),
            i <= n,
            views(tweet_ids@) == present_strs(seq_items.take(i as int), "tweetId"@),
            views(tweet_contents@) == present_strs(seq_items.take(i as int), "content"@),
            photo_urls@.len() == i,
            forall|k: int|
                0 <= k < i ==> match #[trigger] field_str(seq_items[k], "photoUrl"@) {
                    Some(s) => photo_urls@[k] matches Some(p) && p@ == s,
                    None => photo_urls@[k] is None,
                },
        decreases n - i,
    {
        let item = &items[i];
        let ghost prefix = seq_items.take(i + 1);
        assert(prefix.drop_last() =~= seq_items.take(i as int));
        assert(prefix.last() == seq_items[i as int]);
        let ghost ids_before = views(tweet_ids@);
        let ghost contents_before = views(tweet_contents@);
        match copy_field_str(item, "tweetId") {
            Some(s) => {
                tweet_ids.push(s);
                assert(views(tweet_ids@) =~= ids_before.push(s@));
            },
            None => {},
        }
        match copy_field_str(item, "content") {
            Some(s) => {
                tweet_contents.push(s);
                assert(views(tweet_contents@) =~= contents_before.push(s@));
            },
            None => {},
        }
        photo_urls.push(copy_field_str(item, "photoUrl"));
        i = i + 1;
    }
    assert(seq_items.take(n as int) =~= seq_items);
    let debug = field_bool_or(doc, "debug", true);
    let with_image = field_bool_or(doc, "withImage", false);
    Some(FilterRequest { tweet_ids, tweet_contents, photo_urls, debug, with_image })
}

/// The tweets of a filter request body; nothing where the body is no JSON
/// document or has no `tweets` array.
pub fn parse_filter_request(body: &[u8]) -> (r: Option<FilterRequest>)
    ensures
        match json_parse(body@) {
            Err(_) => r is None,
            Ok(doc) => match field_items(doc, "tweets"@) {
                None => r is None,
                Some(items) => r matches Some(req) && reads_request(req, doc, items),
            },
        },
{
    match parse_json(body) {
        Ok(doc) => filter_request_from_json(&doc),
        Err(_) => None,
    }
}

/// How the tweets of a request are judged.
#[derive(Debug, PartialEq, Eq, Structural, Clone, Copy)]
pub enum Mode {
    /// Each tweet gets a random verdict.
    Random,
    /// A chat model judges the tweets, with their photos or without.
    Model { with_image: bool },
    /// Every tweet passes.
    PassAll,
}

/// The mode of a request: random verdicts in debug mode; otherwise the model,
/// when the filter is on, has rules, and there are tweet texts; otherwise
/// every tweet passes.
pub open spec fn mode_of(debug: bool, with_image: bool, is_on: bool, n_rules: nat, n_tweets: nat) -> Mode {
    if debug {
        Mode::Random
    } else if is_on && n_rules > 0 && n_tweets > 0 {
        Mode::Model { with_image }
    } else {
        Mode::PassAll
    }
}

/// The mode in which the tweets of `req` are judged under `state`.
pub open spec fn request_mode(req: FilterRequest, state: State) -> Mode {
    mode_of(
        req.debug,
        req.with_image,
        state.is_on,
        state.rules@.len(),
        req.tweet_contents@.len(),
    )
}

/// How the tweets of `req` are judged under `state`.
pub fn filter_mode(req: &FilterRequest, state: &State) -> (r: Mode)
    ensures
        r == request_mode(*req, *state),
{
    if req.debug {
        Mode::Random
    } else if state.is_on && state.rules.len() > 0 && req.tweet_contents.len() > 0 {
        Mode::Model { with_image: req.with_image }
    } else {
        Mode::PassAll
    }
}

/// Calls `rand::random::<bool>()`. Nothing is claimed of the result: it is
/// drawn from the thread's random number generator.
#[verifier::external_body]
fn random_bool() -> bool {
    rand::random::<bool>()
}

/// `n` random verdicts.
pub fn random_verdicts(n: usize) -> (r: Vec<bool>)
    ensures
        r@.len() == n,
{
    let mut out: Vec<bool> = Vec::new();
    let mut i: usize = 0;
    while i < n
        invariant
            i <= n,
            out@.len() == i,
        decreases n - i,
    {
        out.push(random_bool());
        i = i + 1;
    }
    out
}

/// `n` verdicts that let every tweet pass.
pub fn pass_all(n: usize) -> (r: Vec<bool>)
    ensures
        r@ == Seq::new(n as nat, |i: int| true),
{
    let mut out: Vec<bool> = Vec::new();
    let mut i: usize = 0;
    while i < n
        invariant
            i <= n,
            out@ == Seq::new(i as nat, |k: int| true),
        decreases n - i,
    {
        out.push(true);
        i = i + 1;
        assert(out@ =~= Seq::new(i as nat, |k: int| true));
    }
    out
}

/// The object `{"tweetId": id, "filterBool": pass}` of one tweet. The entries
/// are listed here as the document holds them; the written text lists the
/// keys in sorted order.
pub open spec fn result_data(id: Seq<char>, pass: bool) -> JsonData {
    JsonData::Object(
        seq![("tweetId"@, JsonData::String(id)), ("filterBool"@, JsonData::Bool(pass))],
    )
}

/// The answer `[{"tweetId": ..., "filterBool": ...}, ...]` that pairs each
/// tweet id with its verdict, in order.
pub open spec fn results_data(ids: Seq<Seq<char>>, verdicts: Seq<bool>) -> JsonData {
    JsonData::Array(Seq::new(ids.len(), |i: int| result_data(ids[i], verdicts[i])))
}

/// The answer lists one object per tweet id, in order; the object of the
/// `i`-th id holds that id under `tweetId` and its own verdict, unchanged,
/// under `filterBool`.
pub proof fn lemma_results_pair_each_id_with_its_verdict(ids: Seq<Seq<char>>, verdicts: Seq<bool>)
    requires
        ids.len() == verdicts.len(),
    ensures
        results_data(ids, verdicts) is Array,
        results_data(ids, verdicts)->Array_0.len() == ids.len(),
        forall|i: int|
            0 <= i < ids.len() ==> #[trigger] results_data(ids, verdicts)->Array_0[i]
                == JsonData::Object(
                seq![
                    ("tweetId"@, JsonData::String(ids[i])),
                    ("filterBool"@, JsonData::Bool(verdicts[i])),
                ],
            ),
{
}

/// The answer that pairs each tweet id with its verdict.
pub fn results_json(tweet_ids: &[String], verdicts: &[bool]) -> (r: JsonValue)
    requires
        tweet_ids@.len() == verdicts@.len(),
    ensures
        r@ == results_data(views(tweet_ids@), verdicts@),
{
    let mut items: Vec<JsonValue> = Vec::new();
    let n = tweet_ids.len();
    let mut i: usize = 0;
    while i < n
        invariant
            n == tweet_ids@.len(),
            n == verdicts@.len(),
            i <= n,
            items@.len() == i,
            forall|k: int|
                0 <= k < i ==> (#[trigger] items@[k])@ == result_data(tweet_ids@[k]@, verdicts@[k]),
        decreases n - i,
    {
        let mut entries: Vec<(String, JsonValue)> = Vec::new();
        entries.push((String::from_str("tweetId"), JsonValue::String(tweet_ids[i].clone())));
        entries.push((String::from_str("filterBool"), JsonValue::Bool(verdicts[i])));
        proof {
            lemma_object_view(entries);
            assert(data_entries(entries@) =~= result_data(
                tweet_ids@[i as int]@,
                verdicts@[i as int],
            )->Object_0);
        }
        items.push(JsonValue::Object(entries));
        i = i + 1;
    }
    proof {
        lemma_array_view(items);
        assert(data_items(items@) =~= results_data(views(tweet_ids@), verdicts@)->Array_0);
    }
    JsonValue::Array(items)
}

/// The body of the answer to a filter request: the JSON text of the tweet ids
/// paired with their verdicts; nothing when there are not as many verdicts
/// as ids, and then the request gets no answer.
pub fn filter_response(tweet_ids: &[String], verdicts: &[bool]) -> (r: Option<String>)
    ensures
        r is Some <==> tweet_ids@.len() == verdicts@.len(),
        r matches Some(body) ==> body@ == json_text(results_data(views(tweet_ids@), verdicts@)),
{
    if tweet_ids.len() != verdicts.len() {
        return None;
    }
    let doc = results_json(tweet_ids, verdicts);
    Some(json_to_string(&doc))
}

/// The next step of a filter request.
#[derive(Debug)]
pub enum FilterStep {
    /// Send this body, or nothing.
    Respond(Option<String>),
    /// Ask the chat model, with the photos or without, and then answer with
    /// [`filter_response`] of its verdicts.
    AskModel { with_image: bool },
}

/// What is done with a filter request under `state`: in debug mode the
/// answer pairs the ids with random verdicts, one per tweet text; when every
/// tweet passes, with `true` for each tweet text; when the model judges, it is
/// asked first.
pub fn decide_filter(req: &FilterRequest, state: &State) -> (r: FilterStep)
    ensures
        match request_mode(*req, *state) {
            Mode::Model { with_image } => r == FilterStep::AskModel { with_image },
            Mode::PassAll => r matches FilterStep::Respond(body) && (body is Some <==> req.tweet_ids@.len()
                == req.tweet_contents@.len()) && (body matches Some(b) ==> b@ == json_text(
                results_data(views(req.tweet_ids@), Seq::new(req.tweet_contents@.len(), |i: int| true)),
            )),
            Mode::Random => r matches FilterStep::Respond(body) && (body is Some <==> req.tweet_ids@.len()
                == req.tweet_contents@.len()) && (body matches Some(b) ==> exists|v: Seq<bool>|
                v.len() == req.tweet_contents@.len() && b@ == json_text(
                    results_data(views(req.tweet_ids@), v),
                )),
        },
{
    match filter_mode(req, state) {
        Mode::Random => {
            let verdicts = random_verdicts(req.tweet_contents.len());
            let body = filter_response(req.tweet_ids.as_slice(), verdicts.as_slice());
            FilterStep::Respond(body)
        },
        Mode::Model { with_image } => FilterStep::AskModel { with_image },
        Mode::PassAll => {
            let verdicts = pass_all(req.tweet_contents.len());
            let body = filter_response(req.tweet_ids.as_slice(), verdicts.as_slice());
            FilterStep::Respond(body)
        },
    }
}

/// Every `OPTIONS` request gets the preflight answer and every request that is
/// neither `OPTIONS` nor `POST` is ignored, whatever its path; a `POST` is
/// judged, answered with the settings, or stores settings exactly on the
/// paths `/filter`, `/fetch_settings` and `/submit_settings`, and is ignored on
/// every other path.
pub proof fn lemma_routes(path: Seq<char>)
    ensures
        route_of(HttpMethod::Options, path) == Route::Preflight,
        route_of(HttpMethod::Other, path) == Route::Ignore,
        (route_of(HttpMethod::Post, path) == Route::Filter) <==> path == "/filter"@,
        (route_of(HttpMethod::Post, path) == Route::FetchSettings) <==> path == "/fetch_settings"@,
        (route_of(HttpMethod::Post, path) == Route::SubmitSettings) <==> path == "/submit_settings"@,
        route_of(HttpMethod::Post, path) != Route::Preflight,
{
    reveal_strlit("/filter");
    reveal_strlit("/fetch_settings");
    reveal_strlit("/submit_settings");
    assert("/filter"@.len() != "/fetch_settings"@.len());
    assert("/filter"@.len() != "/submit_settings"@.len());
    assert("/fetch_settings"@[3] != "/submit_settings"@[3]);
}

/// A path that starts with `/` and the process name loses exactly that
/// prefix; a path that does not is kept whole.
pub proof fn lemma_strip_process(process: Seq<char>, rest: Seq<char>, path: Seq<char>)
    ensures
        strip_process(seq!['/'] + process + rest, process) == rest,
        path.len() < process.len() + 1 || path.subrange(0, process.len() as int + 1) != seq!['/'] + process
            ==> strip_process(path, process) == path,
{
    let whole = seq!['/'] + process + rest;
    assert(whole.take((seq!['/'] + process).len() as int) =~= seq!['/'] + process);
    assert(whole.skip((seq!['/'] + process).len() as int) =~= rest);
    if !(path.len() < process.len() + 1) {
        assert(path.take(process.len() as int + 1) =~= path.subrange(0, process.len() as int + 1));
    }
}

/// When every item has a string under `key`, the strings read are those of
/// every item, in order: none is dropped or reordered.
pub proof fn lemma_present_strs_of_full_items(items: Seq<JsonData>, key: Seq<char>)
    requires
        forall|i: int| 0 <= i < items.len() ==> (#[trigger] field_str(items[i], key)) is Some,
    ensures
        present_strs(items, key).len() == items.len(),
        forall|i: int|
            0 <= i < items.len() ==> Some(#[trigger] present_strs(items, key)[i]) == field_str(
                items[i],
                key,
            ),
    decreases items.len(),
{
    if items.len() > 0 {
        let rest = items.drop_last();
        assert forall|i: int| 0 <= i < rest.len() implies (#[trigger] field_str(rest[i], key)) is Some by {
            assert(rest[i] == items[i]);
        }
        lemma_present_strs_of_full_items(rest, key);
        assert(field_str(items[items.len() - 1], key) is Some);
        assert forall|i: int| 0 <= i < items.len() implies Some(
            #[trigger] present_strs(items, key)[i],
        ) == field_str(items[i], key) by {
            if i < items.len() - 1 {
                assert(rest[i] == items[i]);
                assert(present_strs(rest, key)[i] == present_strs(items, key)[i]);
            }
        }
    }
}

/// The strings read under `key` are never more than the items.
pub proof fn lemma_present_strs_len(items: Seq<JsonData>, key: Seq<char>)
    ensures
        present_strs(items, key).len() <= items.len(),
    decreases items.len(),
{
    if items.len() > 0 {
        lemma_present_strs_len(items.drop_last(), key);
    }
}

/// Only the exact names `OPTIONS` and `POST` stand for those methods; every
/// other name, and a method that does not parse, is another method.
pub proof fn lemma_method_names(name: Seq<char>)
    ensures
        (method_of(Some(name)) == HttpMethod::Options) <==> name == "OPTIONS"@,
        (method_of(Some(name)) == HttpMethod::Post) <==> name == "POST"@,
        method_of(None) == HttpMethod::Other,
{
    reveal_strlit("OPTIONS");
    reveal_strlit("POST");
    assert("OPTIONS"@.len() != "POST"@.len());
}

/// A request without tweet texts never asks the model.
pub proof fn lemma_no_texts_never_asks(req: FilterRequest, state: State)
    requires
        req.tweet_contents@.len() == 0,
    ensures
        !(request_mode(req, state) is Model),
{
}

/// In debug mode the model is never asked.
pub proof fn lemma_debug_never_asks(req: FilterRequest, state: State)
    requires
        req.debug,
    ensures
        request_mode(req, state) == Mode::Random,
{
}

/// Outside debug mode, a filter that is off, or has no rules, lets every tweet
/// pass without asking the model.
pub proof fn lemma_off_or_no_rules_passes_all(req: FilterRequest, state: State)
    requires
        !req.debug,
        !state.is_on || state.rules@.len() == 0,
    ensures
        request_mode(req, state) == Mode::PassAll,
{
}

/// Outside debug mode, a filter that is on and has rules asks the model about
/// every request with tweet texts, with photos exactly when the request asks
/// for them.
pub proof fn lemma_on_with_rules_asks_model(req: FilterRequest, state: State)
    requires
        !req.debug,
        state.is_on,
        state.rules@.len() > 0,
        req.tweet_contents@.len() > 0,
    ensures
        request_mode(req, state) == (Mode::Model { with_image: req.with_image }),
{
}

/// An answer of exactly one `0` or `1` per tweet text gives one verdict per
/// tweet id when every tweet has both, so every tweet gets its verdict in the
/// answer to the request.
pub proof fn lemma_digit_answer_covers_every_tweet(req: FilterRequest, answer: Seq<char>)
    requires
        only_digits(answer),
        answer.len() == req.tweet_contents@.len(),
        req.tweet_ids@.len() == req.tweet_contents@.len(),
    ensures
        verdicts(answer).len() == req.tweet_ids@.len(),
{
    lemma_digit_answer(answer);
}

/// The body of the answer to a request for the settings: the JSON text of the
/// rules and the switch of `state`.
pub fn fetch_settings(state: &State) -> (r: String)
    ensures
        r@ == settings_text(*state),
{
    let doc = settings_json(state);
    json_to_string(&doc)
}

} // verus!
