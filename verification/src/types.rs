//! Message and tool-call types exchanged with the language-model backends.
use vstd::prelude::*;

verus! {

/// The characters of an optional string.
pub open spec fn opt_str(o: Option<String>) -> Option<Seq<char>> {
    match o {
        Some(s) => Some(s@),
        None => None,
    }
}

/// A copy of an optional string.
pub fn clone_opt_string(o: &Option<String>) -> (r: Option<String>)
    ensures
        opt_str(r) == opt_str(*o),
{
    match o {
        Some(s) => Some(s.clone()),
        None => None,
    }
}

/// Who authored a message.
#[derive(Debug, Clone, Copy, PartialEq, Eq, Structural)]
pub enum Role {
    System,
    User,
    Assistant,
    Tool,
}

/// The wire name of a role.
pub open spec fn role_name(r: Role) -> Seq<char> {
    match r {
        Role::System => seq!['s', 'y', 's', 't', 'e', 'm'],
        Role::User => seq!['u', 's', 'e', 'r'],
        Role::Assistant => seq!['a', 's', 's', 'i', 's', 't', 'a', 'n', 't'],
        Role::Tool => seq!['t', 'o', 'o', 'l'],
    }
}

impl Role {
    /// The lower-case wire name of the role.
    pub fn as_str(&self) -> (s: &'static str)
        ensures
            s@ == role_name(*self),
    {
        match self {
            Role::System => {
                proof { reveal_strlit("system"); }
                "system"
            },
            Role::User => {
                proof { reveal_strlit("user"); }
                "user"
            },
            Role::Assistant => {
                proof { reveal_strlit("assistant"); }
                "assistant"
            },
            Role::Tool => {
                proof { reveal_strlit("tool"); }
                "tool"
            },
        }
    }
}

/// A function call requested by the model; in a streamed chunk either part may be absent.
#[derive(Debug, PartialEq, Eq)]
pub struct FunctionCall {
    pub name: Option<String>,
    pub arguments: Option<String>,
}

/// The mathematical value of a [`FunctionCall`].
pub struct FunctionCallView {
    pub name: Option<Seq<char>>,
    pub arguments: Option<Seq<char>>,
}

impl View for FunctionCall {
    type V = FunctionCallView;

    open spec fn view(&self) -> FunctionCallView {
        FunctionCallView { name: opt_str(self.name), arguments: opt_str(self.arguments) }
    }
}

impl FunctionCall {
    /// A copy of the call.
    pub fn duplicate(&self) -> (r: FunctionCall)
        ensures
            r@ == self@,
    {
        FunctionCall {
            name: clone_opt_string(&self.name),
            arguments: clone_opt_string(&self.arguments),
        }
    }
}

/// A tool call, or a streamed fragment of one.
#[derive(Debug, PartialEq, Eq)]
pub struct ToolCall {
    pub id: Option<String>,
    pub index: Option<usize>,
    pub function: FunctionCall,
    pub call_type: String,
}

/// The mathematical value of a [`ToolCall`].
pub struct ToolCallView {
    pub id: Option<Seq<char>>,
    pub index: Option<usize>,
    pub function: FunctionCallView,
    pub call_type: Seq<char>,
}

impl View for ToolCall {
    type V = ToolCallView;

    open spec fn view(&self) -> ToolCallView {
        ToolCallView {
            id: opt_str(self.id),
            index: self.index,
            function: self.function@,
            call_type: self.call_type@,
        }
    }
}

impl ToolCall {
    /// A copy of the call.
    pub fn duplicate(&self) -> (r: ToolCall)
        ensures
            r@ == self@,
    {
        ToolCall {
            id: clone_opt_string(&self.id),
            index: self.index,
            function: self.function.duplicate(),
            call_type: self.call_type.clone(),
        }
    }
}

/// The values of a sequence of tool calls.
pub open spec fn tool_calls_view(s: Seq<ToolCall>) -> Seq<ToolCallView> {
    s.map_values(|t: ToolCall| t@)
}

/// The values of an optional list of tool calls.
pub open spec fn opt_tool_calls(o: Option<Vec<ToolCall>>) -> Option<Seq<ToolCallView>> {
    match o {
        Some(v) => Some(tool_calls_view(v@)),
        None => None,
    }
}

/// A chat message.
#[derive(Debug)]
pub struct LlmMessage {
    pub role: Role,
    pub content: Option<String>,
    pub tool_calls: Option<Vec<ToolCall>>,
    pub name: Option<String>,
    pub tool_call_id: Option<String>,
}

/// The mathematical value of an [`LlmMessage`].
pub struct LlmMessageView {
    pub role: Role,
    pub content: Option<Seq<char>>,
    pub tool_calls: Option<Seq<ToolCallView>>,
    pub name: Option<Seq<char>>,
    pub tool_call_id: Option<Seq<char>>,
}

impl View for LlmMessage {
    type V = LlmMessageView;

    open spec fn view(&self) -> LlmMessageView {
        LlmMessageView {
            role: self.role,
            content: opt_str(self.content),
            tool_calls: opt_tool_calls(self.tool_calls),
            name: opt_str(self.name),
            tool_call_id: opt_str(self.tool_call_id),
        }
    }
}

impl LlmMessage {
    /// An assistant message with the given text and nothing else.
    pub fn assistant(content: &str) -> (m: LlmMessage)
        ensures
            m@ == (LlmMessageView {
                role: Role::Assistant,
                content: Some(content@),
                tool_calls: None,
                name: None,
                tool_call_id: None,
            }),
    {
        LlmMessage {
            role: Role::Assistant,
            content: Some(content.to_string()),
            tool_calls: None,
            name: None,
            tool_call_id: None,
        }
    }
}

/// Token usage reported by a provider.
#[derive(Debug, Clone, Copy, PartialEq, Eq, Structural)]
pub struct LlmUsage {
    pub prompt_tokens: u32,
    pub completion_tokens: u32,
}

/// One completion result, or one streamed piece of it.
#[derive(Debug)]
pub struct LlmChunk {
    pub message: LlmMessage,
    pub finish_reason: Option<String>,
    pub usage: Option<LlmUsage>,
}

/// The mathematical value of an [`LlmChunk`].
pub struct LlmChunkView {
    pub message: LlmMessageView,
    pub finish_reason: Option<Seq<char>>,
    pub usage: Option<LlmUsage>,
}

impl View for LlmChunk {
    type V = LlmChunkView;

    open spec fn view(&self) -> LlmChunkView {
        LlmChunkView {
            message: self.message@,
            finish_reason: opt_str(self.finish_reason),
            usage: self.usage,
        }
    }
}

/// A named tool-choice directive.
#[derive(Debug, Clone, Copy, PartialEq, Eq, Structural)]
pub enum StrToolChoice {
    Auto,
    NoTools,
    Any,
    Required,
}

/// How the model may use tools: a named directive, or one function it must call.
#[derive(Debug)]
pub enum ToolChoice {
    Str(StrToolChoice),
    Function { name: String },
}

} // verus!
