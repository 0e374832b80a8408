//! Learned skills: the knowledge extracted from agent interactions, its
//! data types, and the text handling of extraction.

pub mod types;
pub mod extractor;
pub mod entity;
pub mod extraction;
pub mod search;
pub mod rows;
