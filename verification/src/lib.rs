//! Linear subject backend for Animus.

pub mod backend;
pub mod behaviour;
pub mod client;
pub mod config;
pub mod input;
pub mod issue;
pub mod json;
pub mod laws;
pub mod status_map;
pub mod string_map;
pub mod subject;
pub mod text;
pub mod timestamp;
pub mod vocabulary;
