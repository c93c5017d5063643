//! The kinds of entries the chat view shows.
use vstd::prelude::*;

verus! {

/// A message typed by the user.
#[derive(Debug)]
pub struct UserMessage {
    pub content: String,
    /// Not yet taken up by the agent.
    pub pending: bool,
}

/// A message of the assistant, in Markdown.
#[derive(Debug)]
pub struct AssistantMessage {
    pub content: String,
}

/// A tool call the agent makes.
#[derive(Debug)]
pub struct ToolCallMessage {
    pub summary: String,
    /// Still running.
    pub spinning: bool,
}

/// The result of a tool call.
#[derive(Debug)]
pub struct ToolResultMessage {
    /// The text shown for the result.
    pub summary: String,
    pub error: Option<String>,
    pub skipped: bool,
}

/// The kind of a system message.
#[derive(Debug, Clone, Copy, PartialEq, Eq, Structural)]
pub enum SystemMessageKind {
    Info,
    Warning,
    Error,
}

/// A notice of the application.
#[derive(Debug)]
pub struct SystemMessage {
    pub content: String,
    pub kind: SystemMessageKind,
}

/// The echo of a command the user typed.
#[derive(Debug)]
pub struct UserCommandMessage {
    pub content: String,
}

/// An error report.
#[derive(Debug)]
pub struct ErrorMessage {
    pub content: String,
}

/// A warning.
#[derive(Debug)]
pub struct WarningMessage {
    pub content: String,
}

/// The output of a shell command the user ran.
#[derive(Debug)]
pub struct BashOutputMessage {
    pub cwd: String,
    pub command: String,
    pub output: String,
    pub exit_code: i32,
}

/// The progress or outcome of compacting the conversation.
#[derive(Debug)]
pub struct CompactMessage {
    pub in_progress: bool,
    pub error: Option<String>,
    pub old_tokens: Option<u64>,
    pub new_tokens: Option<u64>,
}

/// One entry of the completion popup.
#[derive(Debug)]
pub struct CompletionSuggestion {
    pub completion: String,
    pub description: String,
}

} // verus!
