//! Core library of an AI-assisted application builder: session lifecycle,
//! skills, image and language-model request types, and the rules that
//! connect them.

pub mod clock;
pub mod ids;
pub mod session;
pub mod text;
pub mod json;
pub mod http;
pub mod backoff;
pub mod specification;
pub mod image;
pub mod llm;
pub mod skills;
pub mod routing;
pub mod security;
pub mod knowledge;
pub mod error;
