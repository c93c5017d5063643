//! Verified core of an LLM command-line coding assistant: message and tool-call
//! handling, streaming event decoding, and the text layout of the terminal UI.
pub mod text;
pub mod types;
pub mod format;
pub mod backend;
pub mod style;
pub mod modes;
pub mod markdown;
pub mod messages;
pub mod widgets;
pub mod panels;
pub mod commands;
pub mod session;
