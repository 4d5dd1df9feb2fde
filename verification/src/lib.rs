//! Verified core of a command-line helper that wraps text in a chat-style
//! conversation, estimates its token cost against a configured ceiling, and
//! prepares a single chat-completion request whose reply is rendered as plain
//! text or markdown.
//!
//! The modules here hold the logic worth proving: conversation assembly,
//! token estimation, the budget check, configuration resolution, and the
//! rendering decision. All I/O (stdin, the network call, printing, the
//! configuration file) lives in the surrounding application.

pub mod config;
pub mod conversation;
pub mod limiter;
pub mod outcome;
pub mod request;
pub mod tokens;
pub mod yaml;
