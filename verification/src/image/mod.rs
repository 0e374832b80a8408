//! Image generation: request and response types, model capabilities, and
//! the byte-level and retry rules of the image client.

pub mod client;
pub mod models;
pub mod operations;
pub mod types;
