use filter::groq_api::{groq_wasm_path, reply_message};
use filter::helpers::{default_headers, extract_tweets, tweets_from_json, ExtractError};
use filter::json::JsonValue;
use filter::llm_inference::{build_prompt, create_chat_params, inference_chat_params, parse_response_to_bool_array};
use filter::llm_inference_with_image::{
    image_chat_params, system_prompt_text, ChatImageContent,
};
use filter::llm_types::{ChatResponse, Choice, LLMResponse, Message, Provider, EmbeddingResponse};
use filter::server::{
    method_from_name, request_route, strip_process_prefix, accepts_message, decide_filter, fetch_settings, filter_mode, filter_response,
    parse_filter_request, random_verdicts, route_request, FilterStep, HttpMethod, Mode, Route,
};
use filter::structs::{settings_json, Settings, State};
use filter::text::{decimal_string, numbered_listing, str_eq};

fn strings(items: &[&str]) -> Vec<String> {
    items.iter().map(|s| s.to_string()).collect()
}

#[test]
fn decimal_numerals() {
    assert_eq!(decimal_string(0), "0");
    assert_eq!(decimal_string(7), "7");
    assert_eq!(decimal_string(10), "10");
    assert_eq!(decimal_string(205), "205");
    assert_eq!(decimal_string(usize::MAX), usize::MAX.to_string());
}

#[test]
fn numbered_listing_joins_lines() {
    assert_eq!(numbered_listing(&strings(&["a", "b", "c"]), "\n"), "1. a\n2. b\n3. c");
    assert_eq!(numbered_listing(&strings(&[]), "\n"), "");
    assert_eq!(numbered_listing(&strings(&["x"]), "--"), "1. x");
}

#[test]
fn str_eq_compares_text() {
    assert!(str_eq("abc", "abc"));
    assert!(!str_eq("abc", "abd"));
    assert!(!str_eq("ab", "abc"));
}

#[test]
fn default_headers_are_the_cors_headers() {
    let h = default_headers();
    let expected = vec![
        ("Content-Type".to_string(), "application/json".to_string()),
        ("Access-Control-Allow-Origin".to_string(), "*".to_string()),
        ("Access-Control-Allow-Headers".to_string(), "Content-Type".to_string()),
        ("Access-Control-Allow-Methods".to_string(), "GET, POST, OPTIONS".to_string()),
    ];
    assert_eq!(h, expected);
    let mut names: Vec<&String> = h.iter().map(|(n, _)| n).collect();
    names.sort();
    names.dedup();
    assert_eq!(names.len(), 4);
}

#[test]
fn extract_tweets_reads_strings() {
    let r = extract_tweets(br#"{"tweets": ["one", "two"]}"#);
    assert_eq!(r, Ok(strings(&["one", "two"])));
    assert_eq!(extract_tweets(br#"{"tweets": []}"#), Ok(vec![]));
}

#[test]
fn extract_tweets_errors() {
    let serde_error = serde_json::from_slice::<serde_json::Value>(b"not json").unwrap_err().to_string();
    assert_eq!(extract_tweets(b"not json"), Err(ExtractError::InvalidJson(serde_error.clone())));
    assert_eq!(ExtractError::InvalidJson(serde_error.clone()).message(), serde_error);
    assert_eq!(extract_tweets(br#"{"other": 1}"#), Err(ExtractError::MissingTweets));
    assert_eq!(extract_tweets(br#"[1, 2]"#), Err(ExtractError::MissingTweets));
    assert_eq!(extract_tweets(br#"{"tweets": "x"}"#), Err(ExtractError::TweetsNotArray));
    assert_eq!(extract_tweets(br#"{"tweets": ["a", 3]}"#), Err(ExtractError::TweetNotString));
    assert_eq!(ExtractError::MissingTweets.message(), "'tweets' field is missing");
    assert_eq!(ExtractError::TweetsNotArray.message(), "'tweets' is not an array");
    assert_eq!(ExtractError::TweetNotString.message(), "tweet is not a string");
}

#[test]
fn tweets_from_built_document() {
    let doc = JsonValue::Object(vec![(
        "tweets".to_string(),
        JsonValue::Array(vec![JsonValue::String("t".to_string())]),
    )]);
    assert_eq!(tweets_from_json(&doc), Ok(strings(&["t"])));
}

#[test]
fn json_documents_are_read_as_values() {
    let body = br#"{"tweets": [{"tweetId": "a", "content": "x", "photoUrl": 3}, {"tweetId": 1.5, "content": null}, "plain"], "withImage": true, "debug": false}"#;
    let req = parse_filter_request(body).unwrap();
    assert_eq!(req.tweet_ids, strings(&["a"]));
    assert_eq!(req.tweet_contents, strings(&["x"]));
    assert_eq!(req.photo_urls, vec![None, None, None]);
    assert!(req.with_image);
    assert!(!req.debug);
    assert_eq!(extract_tweets(br#"{"tweets": ["\u00e9\n"]}"#), Ok(vec!["\u{e9}\n".to_string()]));
}

#[test]
fn answers_are_json_text() {
    let ids = strings(&["quote\"d"]);
    assert_eq!(
        filter_response(&ids, &[false]),
        Some(r#"[{"filterBool":false,"tweetId":"quote\"d"}]"#.to_string())
    );
}

#[test]
fn verdicts_from_answers() {
    assert_eq!(parse_response_to_bool_array("1011"), vec![true, false, true, true]);
    assert_eq!(parse_response_to_bool_array("1, 0\n2"), vec![true, false]);
    assert_eq!(parse_response_to_bool_array(""), Vec::<bool>::new());
    assert_eq!(parse_response_to_bool_array("yes"), Vec::<bool>::new());
    assert_eq!(
        filter::llm_inference_with_image::parse_response_to_bool_array("0é1"),
        vec![false, true]
    );
}

#[test]
fn digit_answer_gives_one_verdict_per_digit() {
    let answer = "010";
    let v = parse_response_to_bool_array(answer);
    assert_eq!(v.len(), answer.chars().count());
    for (c, b) in answer.chars().zip(v.iter()) {
        assert_eq!(*b, c == '1');
    }
}

#[test]
fn prompt_text() {
    let p = build_prompt(&strings(&["hello", "spam"]), &strings(&["no ads"]));
    let expected = "\nI am going to give you a series of tweets, and a series of rules. \n\nThe rules are: \n1. no ads\n----------\n\nThe tweets are: \n1. hello\n<ENDOFTWEET>\n2. spam\n\n----------\nFor each of the tweets, respond 0 if they break one or more rules, and 1 if they don't break any rules. \nDo not answer with anything else but 0 or 1. No part of the answer should contain anything but the symbols 0 or 1. There are a total of 2 tweets, meaning your answer should be 2 digits long. The tweets are separated by <ENDOFTWEET> and are numbered, this is how you can separate them out. \n";
    assert_eq!(p, expected);
}

#[test]
fn chat_params_for_text() {
    let params = inference_chat_params(&strings(&["t"]), &strings(&["r"]));
    assert_eq!(params.model, "gpt-4-turbo-preview");
    assert_eq!(params.max_tokens, Some(40));
    assert_eq!(params.messages.len(), 2);
    assert_eq!(params.messages[0].role, "system");
    assert_eq!(
        params.messages[0].content,
        "You are a helpful assistant that will only answer with 0 or 1"
    );
    assert_eq!(params.messages[1].role, "user");
    assert!(params.messages[1].content.contains("1. t"));
    assert!(params.temperature.is_none() && params.user.is_none());
    let bare = create_chat_params(vec![]);
    assert_eq!(bare.model, "gpt-4-turbo-preview");
    assert!(bare.messages.is_empty());
}

#[test]
fn image_chat() {
    let p = image_chat_params(
        &strings(&["a", "b", "c"]),
        &[Some("http://x/1.png".to_string()), None],
        &strings(&["r1", "r2"]),
    );
    assert_eq!(p.model, "gpt-4-turbo");
    assert_eq!(p.max_tokens, Some(40));
    assert_eq!(p.messages.len(), 3);
    assert_eq!(p.messages[0].role, "system");
    let expected_system = format!("Tweet: {}", system_prompt_text("1. r1\n2. r2"));
    assert_eq!(p.messages[0].content, ChatImageContent::Text(expected_system));
    assert_eq!(p.messages[1].role, "user");
    assert_eq!(
        p.messages[1].content,
        ChatImageContent::TextAndImage { text: "a".to_string(), image_url: "http://x/1.png".to_string() }
    );
    assert_eq!(p.messages[2].content, ChatImageContent::Text("b".to_string()));
    assert!(system_prompt_text("X").starts_with(
        "For each tweet provided, which may contain text and/or an image, evaluate it against these rules: X. Each tweet"
    ));
}

#[test]
fn state_defaults() {
    let s = State::new();
    assert_eq!(s.rules, strings(&["This is a test 1", "This is a test 2", "This is a test 3"]));
    assert!(s.is_on);
    assert!(s.openai_key.is_none());
}

#[test]
fn settings_are_read_back_after_submission() {
    let mut s = State::new();
    let key = s.apply_settings(Settings { rules: strings(&["no spam"]), is_on: false, api_key: "k1".to_string() });
    assert_eq!(key, "k1");
    assert_eq!(s.rules, strings(&["no spam"]));
    assert!(!s.is_on);
    assert_eq!(s.openai_key, Some("k1".to_string()));
    assert_eq!(fetch_settings(&s), r#"{"is_on":false,"rules":["no spam"]}"#);
    let doc = settings_json(&s);
    assert_eq!(
        doc,
        JsonValue::Object(vec![
            ("rules".to_string(), JsonValue::Array(vec![JsonValue::String("no spam".to_string())])),
            ("is_on".to_string(), JsonValue::Bool(false)),
        ])
    );
}

#[test]
fn last_submission_wins() {
    let mut s = State::new();
    s.apply_settings(Settings { rules: strings(&["a"]), is_on: true, api_key: "1".to_string() });
    s.apply_settings(Settings { rules: strings(&["b", "c"]), is_on: false, api_key: "2".to_string() });
    assert_eq!(s.rules, strings(&["b", "c"]));
    assert!(!s.is_on);
    assert_eq!(s.openai_key, Some("2".to_string()));
}

#[test]
fn routes() {
    assert_eq!(route_request(HttpMethod::Options, "/anything"), Route::Preflight);
    assert_eq!(route_request(HttpMethod::Post, "/filter"), Route::Filter);
    assert_eq!(route_request(HttpMethod::Post, "/fetch_settings"), Route::FetchSettings);
    assert_eq!(route_request(HttpMethod::Post, "/submit_settings"), Route::SubmitSettings);
    assert_eq!(route_request(HttpMethod::Post, "/send"), Route::Ignore);
    assert_eq!(route_request(HttpMethod::Other, "/filter"), Route::Ignore);
}

#[test]
fn message_acceptance() {
    assert!(accepts_message("node.os", "node.os", "http_server:distro:sys"));
    assert!(!accepts_message("node.os", "other.os", "http_server:distro:sys"));
    assert!(!accepts_message("node.os", "node.os", "terminal:terminal:sys"));
}

fn request_body(debug: Option<bool>, with_image: Option<bool>) -> Vec<u8> {
    let mut s = String::from(r#"{"tweets": [{"tweetId": "1", "content": "hi", "photoUrl": "u"}, {"tweetId": "2", "content": "yo"}, {"content": 5}]"#);
    if let Some(d) = debug {
        s.push_str(&format!(r#", "debug": {}"#, d));
    }
    if let Some(w) = with_image {
        s.push_str(&format!(r#", "withImage": {}"#, w));
    }
    s.push('}');
    s.into_bytes()
}

#[test]
fn filter_request_fields() {
    let req = parse_filter_request(&request_body(Some(false), None)).unwrap();
    assert_eq!(req.tweet_ids, strings(&["1", "2"]));
    assert_eq!(req.tweet_contents, strings(&["hi", "yo"]));
    assert_eq!(req.photo_urls, vec![Some("u".to_string()), None, None]);
    assert!(!req.debug);
    assert!(!req.with_image);
    let defaults = parse_filter_request(&request_body(None, None)).unwrap();
    assert!(defaults.debug);
    assert!(parse_filter_request(b"{}").is_none());
    assert!(parse_filter_request(b"[").is_none());
    assert!(parse_filter_request(br#"{"tweets": {}}"#).is_none());
}

#[test]
fn filter_modes() {
    let mut state = State::new();
    let req = parse_filter_request(&request_body(Some(false), Some(true))).unwrap();
    assert_eq!(filter_mode(&req, &state), Mode::Model { with_image: true });
    let debug_req = parse_filter_request(&request_body(Some(true), None)).unwrap();
    assert_eq!(filter_mode(&debug_req, &state), Mode::Random);
    state.is_on = false;
    assert_eq!(filter_mode(&req, &state), Mode::PassAll);
    state.is_on = true;
    state.rules.clear();
    assert_eq!(filter_mode(&req, &state), Mode::PassAll);
}

#[test]
fn filter_answers() {
    assert_eq!(
        filter_response(&strings(&["a", "b"]), &[true, false]),
        Some(r#"[{"filterBool":true,"tweetId":"a"},{"filterBool":false,"tweetId":"b"}]"#.to_string())
    );
    assert_eq!(filter_response(&strings(&["a"]), &[true, false]), None);
    assert_eq!(filter_response(&[], &[]), Some("[]".to_string()));
}

#[test]
fn filter_off_passes_everything() {
    let mut state = State::new();
    state.is_on = false;
    let body = br#"{"tweets": [{"tweetId": "1", "content": "a"}, {"tweetId": "2", "content": "b"}], "debug": false}"#;
    let req = parse_filter_request(body).unwrap();
    match decide_filter(&req, &state) {
        FilterStep::Respond(Some(b)) => assert_eq!(
            b,
            r#"[{"filterBool":true,"tweetId":"1"},{"filterBool":true,"tweetId":"2"}]"#
        ),
        other => panic!("unexpected {:?}", other),
    }
}

#[test]
fn debug_mode_answers_every_tweet() {
    let state = State::new();
    let body = br#"{"tweets": [{"tweetId": "1", "content": "a"}, {"tweetId": "2", "content": "b"}]}"#;
    let req = parse_filter_request(body).unwrap();
    match decide_filter(&req, &state) {
        FilterStep::Respond(Some(b)) => {
            let v: serde_json::Value = serde_json::from_str(&b).unwrap();
            let items = v.as_array().unwrap();
            assert_eq!(items.len(), 2);
            assert_eq!(items[0]["tweetId"], "1");
            assert!(items[1]["filterBool"].is_boolean());
        }
        other => panic!("unexpected {:?}", other),
    }
    assert_eq!(random_verdicts(5).len(), 5);
}

#[test]
fn mismatched_ids_get_no_answer() {
    let mut state = State::new();
    state.is_on = false;
    let body = br#"{"tweets": [{"content": "a"}], "debug": false}"#;
    let req = parse_filter_request(body).unwrap();
    assert!(matches!(decide_filter(&req, &state), FilterStep::Respond(None)));
}

#[test]
fn model_is_asked_when_on_with_rules() {
    let state = State::new();
    let body = br#"{"tweets": [{"tweetId": "1", "content": "a"}], "debug": false, "withImage": true}"#;
    let req = parse_filter_request(body).unwrap();
    assert!(matches!(decide_filter(&req, &state), FilterStep::AskModel { with_image: true }));
}

#[test]
fn groq_helpers() {
    assert_eq!(groq_wasm_path("filter:dev.os"), "filter:dev.os/pkg/groq.wasm");
    let msg = Message { role: "assistant".to_string(), content: "10".to_string() };
    let chat = ChatResponse {
        choices: vec![Choice { message: msg.clone(), ..Default::default() }],
        ..Default::default()
    };
    assert_eq!(chat.to_chat_response(), "10");
    assert_eq!(chat.to_message_response(), msg);
    assert_eq!(reply_message(&LLMResponse::Chat(chat)), Some(msg));
    assert_eq!(reply_message(&LLMResponse::Embedding(EmbeddingResponse::default())), None);
    assert_eq!(Provider::default(), Provider::OpenAi);
}

fn http_message(method: &str, bound_path: &str) -> Vec<u8> {
    format!(
        r#"{{"Http":{{"source_socket_addr":null,"method":"{}","url":"http://localhost:8080{}","bound_path":"{}","headers":{{}},"url_params":{{}},"query_params":{{}}}}}}"#,
        method, bound_path, bound_path
    )
    .into_bytes()
}

#[test]
fn http_messages_are_routed() {
    assert_eq!(request_route(&http_message("POST", "/filter/filter"), "filter"), Some(Route::Filter));
    assert_eq!(
        request_route(&http_message("POST", "/filter/submit_settings"), "filter"),
        Some(Route::SubmitSettings)
    );
    assert_eq!(
        request_route(&http_message("POST", "/filter/fetch_settings"), "filter"),
        Some(Route::FetchSettings)
    );
    assert_eq!(request_route(&http_message("OPTIONS", "/filter/x"), "filter"), Some(Route::Preflight));
    assert_eq!(request_route(&http_message("GET", "/filter/filter"), "filter"), Some(Route::Ignore));
    assert_eq!(request_route(&http_message("BAD METHOD", "/filter/filter"), "filter"), Some(Route::Ignore));
    assert_eq!(request_route(&http_message("POST", "/other/filter"), "filter"), Some(Route::Ignore));
    assert_eq!(request_route(br#"{"WebSocketClose":3}"#, "filter"), None);
    assert_eq!(request_route(b"nonsense", "filter"), None);
}

#[test]
fn path_prefix_and_methods() {
    assert_eq!(strip_process_prefix("/filter/filter", "filter"), "/filter");
    assert_eq!(strip_process_prefix("/fil", "filter"), "/fil");
    assert_eq!(strip_process_prefix("/other/x", "filter"), "/other/x");
    assert_eq!(strip_process_prefix("/filter", "filter"), "");
    assert_eq!(method_from_name(&Some("OPTIONS".to_string())), HttpMethod::Options);
    assert_eq!(method_from_name(&Some("POST".to_string())), HttpMethod::Post);
    assert_eq!(method_from_name(&Some("post".to_string())), HttpMethod::Other);
    assert_eq!(method_from_name(&None), HttpMethod::Other);
}

#[test]
fn settings_answer_ignores_the_key() {
    let mut a = State::new();
    let mut b = State::new();
    a.openai_key = Some("sk-1".to_string());
    b.openai_key = None;
    assert_eq!(fetch_settings(&a), fetch_settings(&b));
    assert!(!fetch_settings(&a).contains("sk-1"));
}
