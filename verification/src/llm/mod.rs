//! Language-model integration over the OpenRouter API: request and response
//! types, streaming events, and the decisions of the client.

pub mod types;
pub mod streaming;
pub mod client;
pub mod openrouter;
