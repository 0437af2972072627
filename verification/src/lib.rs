//! Tweet filtering by user-written rules: request handling, prompt building and
//! the interpretation of a language model's verdicts, with their contracts.
pub mod text;
pub mod json;
pub mod helpers;
pub mod llm_types;
pub mod llm_inference;
pub mod llm_inference_with_image;
pub mod structs;
pub mod server;

pub mod groq_api;
