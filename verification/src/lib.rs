//! The rules of an assistant for a task list: when a call to the chat-completion endpoint
//! is retried and how long it waits, how a failure is worded, how JSON is recovered from a
//! reply, and what a reply says of a task. Sending, storing and waiting are left to the
//! caller, who reports back what happened.

pub mod chat;
pub mod commands;
pub mod config;
pub mod dates;
pub mod decimal;
pub mod extract;
pub mod http_error;
pub mod json;
pub mod retry;
pub mod secure_storage;
pub mod text;
pub mod todo;
