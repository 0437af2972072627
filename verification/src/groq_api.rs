//! The parts of talking to the Groq worker that compute: where its code lies,
//! and what its answer to a chat request means.
use vstd::prelude::*;
use vstd::string::*;
use crate::llm_types::{LLMResponse, Message};

verus! {

/// The path of the worker's code inside the package with this id.
pub fn groq_wasm_path(package_id: &str) -> (r: String)
    ensures
        r@ == package_id@ + "/pkg/groq.wasm"@,
{
    let mut path = String::from_str(package_id);
    path.append("/pkg/groq.wasm");
    path
}

/// The message that answers a chat request: that of the first choice of a
/// chat answer; nothing for any other answer, which the caller reports as a
/// wrong result.
pub fn reply_message(response: &LLMResponse) -> (r: Option<Message>)
    requires
        response matches LLMResponse::Chat(chat) ==> chat.choices@.len() > 0,
    ensures
        match response {
            LLMResponse::Chat(chat) => r == Some(chat.choices@[0].message),
            LLMResponse::Embedding(_) => r is None,
        },
{
    match response {
        LLMResponse::Chat(chat) => Some(chat.to_message_response()),
        LLMResponse::Embedding(_) => None,
    }
}

} // verus!
