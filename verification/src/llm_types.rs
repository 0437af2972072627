//! The messages exchanged with a chat-model worker. Floating-point settings
//! and embeddings are held as their IEEE-754 bit patterns (`f64::to_bits`,
//! `f32::to_bits`). A string-keyed map is held as a list of entries: vstd
//! describes a `HashMap`'s contents only for keys that obey its key model, and
//! `String` does not. The log probabilities of a choice are carried through as
//! serde_json's value; nothing here reads them.
use vstd::prelude::*;

verus! {

/// A request to a model worker.
#[derive(Debug, PartialEq)]
pub enum LLMRequest {
    Embedding(EmbeddingRequest),
    Chat(ChatRequest),
}

/// A request for the embedding of a text.
#[derive(Default, Debug, PartialEq)]
pub struct EmbeddingRequest {
    pub api_key: String,
    pub params: EmbeddingParams,
}

/// The text to embed and the model that embeds it.
#[derive(Default, Debug, PartialEq)]
pub struct EmbeddingParams {
    pub input: String,
    pub model: String,
}

/// A chat request, with the key of the provider that serves it.
#[derive(Default, Debug, PartialEq)]
pub struct ChatRequest {
    pub api_key: String,
    pub provider: Provider,
    pub params: ChatParams,
}

/// The service a chat request goes to.
#[derive(Debug, PartialEq, Eq, Structural, Clone, Copy)]
pub enum Provider {
    OpenAi,
    Groq,
}

impl Default for Provider {
    /// OpenAI serves a request that names no provider.
    fn default() -> (r: Self)
        ensures
            r == Provider::OpenAi,
    {
        Provider::OpenAi
    }
}

/// The settings of a chat completion. `frequency_penalty`,
/// `presence_penalty`, `temperature` and `top_p` hold the bits of an `f64`.
#[derive(Default, Debug, PartialEq)]
pub struct ChatParams {
    pub model: String,
    pub messages: Vec<Message>,
    pub frequency_penalty: Option<u64>,
    pub logit_bias: Option<Vec<(String, i32)>>,
    pub logprobs: Option<bool>,
    pub top_logprobs: Option<i32>,
    pub max_tokens: Option<i32>,
    pub n: Option<i32>,
    pub presence_penalty: Option<u64>,
    pub response_format: Option<ResponseFormat>,
    pub seed: Option<i32>,
    pub stop: Option<Stop>,
    pub stream: Option<bool>,
    pub temperature: Option<u64>,
    pub top_p: Option<u64>,
    pub tools: Option<Vec<String>>,
    pub tool_choice: Option<ToolChoice>,
    pub user: Option<String>,
}

impl ChatParams {
    /// Whether every setting but the model, the messages and the token limit
    /// is left unset.
    pub open spec fn has_only_model_messages_and_max_tokens(&self) -> bool {
        &&& self.frequency_penalty is None
        &&& self.logit_bias is None
        &&& self.logprobs is None
        &&& self.top_logprobs is None
        &&& self.n is None
        &&& self.presence_penalty is None
        &&& self.response_format is None
        &&& self.seed is None
        &&& self.stop is None
        &&& self.stream is None
        &&& self.temperature is None
        &&& self.top_p is None
        &&& self.tools is None
        &&& self.tool_choice is None
        &&& self.user is None
    }
}

/// One message of a chat: who speaks, and what.
#[derive(Default, Debug, PartialEq)]
pub struct Message {
    pub role: String,
    pub content: String,
}

impl Clone for Message {
    fn clone(&self) -> (r: Self)
        ensures
            r == *self,
    {
        Message { role: self.role.clone(), content: self.content.clone() }
    }
}

/// The format a completion is asked in.
#[derive(Debug, PartialEq)]
pub enum ResponseFormat {
    JsonObject { type_field: String },
}

/// Where a completion stops.
#[derive(Debug, PartialEq)]
pub enum Stop {
    String(String),
    Array(Vec<String>),
}

/// Which tool a completion may call.
#[derive(Debug, PartialEq)]
pub enum ToolChoice {
    /// No tool may be called (the `None` choice).
    NoTool,
    Auto,
    SpecificFunction { type_field: String, function: Function },
}

/// A function a completion may call.
#[derive(Default, Debug, PartialEq)]
pub struct Function {
    pub name: String,
}

/// A chat completion.
#[derive(Default, Debug, PartialEq)]
pub struct ChatResponse {
    pub id: String,
    pub object: String,
    pub created: i64,
    pub model: String,
    pub system_fingerprint: String,
    pub choices: Vec<Choice>,
    pub usage: Usage,
}

impl ChatResponse {
    /// The text of the first choice.
    pub fn to_chat_response(&self) -> (r: String)
        requires
            self.choices@.len() > 0,
        ensures
            r == self.choices@[0].message.content,
    {
        self.choices[0].message.content.clone()
    }

    /// The message of the first choice.
    pub fn to_message_response(&self) -> (r: Message)
        requires
            self.choices@.len() > 0,
        ensures
            r == self.choices@[0].message,
    {
        self.choices[0].message.clone()
    }
}

/// One alternative of a completion.
#[derive(Default, Debug, PartialEq)]
pub struct Choice {
    pub index: i32,
    pub message: Message,
    pub logprobs: Option<serde_json::Value>,
    pub finish_reason: String,
}

/// The tokens a request used.
#[derive(Default, Debug, PartialEq, Eq, Clone, Copy)]
pub struct Usage {
    pub prompt_tokens: i32,
    pub completion_tokens: Option<i32>,
    pub total_tokens: i32,
}

/// An answer of a model worker.
#[derive(Debug, PartialEq)]
pub enum LLMResponse {
    Embedding(EmbeddingResponse),
    Chat(ChatResponse),
}

/// An embedding; each item holds the bits of an `f32`.
#[derive(Default, Debug, PartialEq)]
pub struct EmbeddingResponse {
    pub embedding: Vec<u32>,
}

/// OpenAI's answer to an embedding request.
#[derive(Default, Debug, PartialEq)]
pub struct OpenAiEmbeddingResponse {
    pub object: String,
    pub data: Vec<EmbeddingData>,
    pub model: String,
    pub usage: Usage,
}

/// One embedding in OpenAI's answer; each item holds the bits of an `f64`.
#[derive(Default, Debug, PartialEq)]
pub struct EmbeddingData {
    pub object: String,
    pub index: u32,
    pub embedding: Vec<u64>,
}

} // verus!
