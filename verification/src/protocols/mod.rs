//! The requests that the service takes.

pub mod chat_completions;
