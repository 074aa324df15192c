//! Typed adapters for the Discord, GitHub and OpenAI REST APIs.
//!
//! Each operation is split into a request builder, which turns typed
//! arguments into one HTTP request, and a response reader, which turns what
//! the transport handed back into a typed result or a typed error. Sending
//! the request is left to the caller.
pub mod discord;
pub mod error;
pub mod github;
pub mod hello;
pub mod http;
pub mod json;
pub mod openai;
pub mod text;
