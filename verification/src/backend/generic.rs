//! The wire format of OpenAI-compatible providers and its conversion to and
//! from the library's messages.
use vstd::prelude::*;
use crate::backend::{api_error, is_success_status, parse_failure, parse_failure_text, LlmError, LlmResult};
use crate::types::{
    clone_opt_string, opt_str, FunctionCall, FunctionCallView, LlmChunk, LlmChunkView, LlmMessage,
    LlmMessageView, LlmUsage, Role, ToolCall, ToolCallView, role_name,
};

verus! {

/// A function call on the wire.
#[derive(Debug)]
pub struct OpenAIFunctionCall {
    pub name: String,
    pub arguments: String,
}

/// A tool call on the wire.
#[derive(Debug)]
pub struct OpenAIToolCall {
    pub id: Option<String>,
    pub type_: String,
    pub function: OpenAIFunctionCall,
    pub index: Option<usize>,
}

/// A request message on the wire.
#[derive(Debug)]
pub struct OpenAIMessage {
    pub role: String,
    pub content: Option<String>,
    pub tool_calls: Option<Vec<OpenAIToolCall>>,
    pub name: Option<String>,
    pub tool_call_id: Option<String>,
}

/// The message (or delta) of a response choice.
#[derive(Debug)]
pub struct ResponseMessage {
    pub content: Option<String>,
    pub tool_calls: Option<Vec<OpenAIToolCall>>,
}

/// One choice of a response.
#[derive(Debug)]
pub struct Choice {
    pub message: Option<ResponseMessage>,
    pub delta: Option<ResponseMessage>,
    pub finish_reason: Option<String>,
}

/// Token usage on the wire.
#[derive(Debug, Clone, Copy)]
pub struct Usage {
    pub prompt_tokens: u32,
    pub completion_tokens: u32,
}

/// A complete (non-streamed) response.
#[derive(Debug)]
pub struct ChatResponse {
    pub choices: Vec<Choice>,
    pub usage: Option<Usage>,
}

/// One event of a streamed response.
#[derive(Debug)]
pub struct StreamChunk {
    pub choices: Vec<Choice>,
    pub usage: Option<Usage>,
}

/// The characters of an optional string, or nothing for `None`.
pub open spec fn or_empty(o: Option<Seq<char>>) -> Seq<char> {
    match o {
        Some(s) => s,
        None => Seq::empty(),
    }
}

/// `w` is the wire form of the tool call `t`: absent names and arguments are sent empty.
pub open spec fn wire_call_of(w: OpenAIToolCall, t: ToolCallView) -> bool {
    &&& opt_str(w.id) == t.id
    &&& w.type_@ == t.call_type
    &&& w.function.name@ == or_empty(t.function.name)
    &&& w.function.arguments@ == or_empty(t.function.arguments)
    &&& w.index == t.index
}

/// The content sent for a message: empty content is dropped when the message
/// carries tool calls.
pub open spec fn sent_content(m: LlmMessageView) -> Option<Seq<char>> {
    match (m.content, m.tool_calls) {
        (Some(c), Some(_)) => if c.len() == 0 { None } else { m.content },
        _ => m.content,
    }
}

/// `w` is the wire form of the message `m`.
pub open spec fn wire_message_of(w: OpenAIMessage, m: LlmMessageView) -> bool {
    &&& w.role@ == role_name(m.role)
    &&& opt_str(w.content) == sent_content(m)
    &&& match (w.tool_calls, m.tool_calls) {
        (Some(ws), Some(ts)) => ws.len() == ts.len() && forall|i: int|
            0 <= i < ts.len() ==> wire_call_of(#[trigger] ws@[i], ts[i]),
        (None, None) => true,
        _ => false,
    }
    &&& opt_str(w.name) == m.name
    &&& opt_str(w.tool_call_id) == m.tool_call_id
}

/// The string form of an optional string.
fn unwrap_or_empty(o: &Option<String>) -> (s: String)
    ensures
        s@ == or_empty(opt_str(*o)),
{
    match o {
        Some(s) => s.clone(),
        None => String::new(),
    }
}

/// The wire form of a tool call.
fn convert_tool_call(tc: &ToolCall) -> (w: OpenAIToolCall)
    ensures
        wire_call_of(w, tc@),
{
    OpenAIToolCall {
        id: clone_opt_string(&tc.id),
        type_: tc.call_type.clone(),
        function: OpenAIFunctionCall {
            name: unwrap_or_empty(&tc.function.name),
            arguments: unwrap_or_empty(&tc.function.arguments),
        },
        index: tc.index,
    }
}

/// The wire form of a message.
pub fn convert_message(msg: &LlmMessage) -> (w: OpenAIMessage)
    ensures
        wire_message_of(w, msg@),
{
    let content = match (&msg.content, &msg.tool_calls) {
        (Some(c), Some(_)) => if c.as_str().is_empty() {
            None
        } else {
            clone_opt_string(&msg.content)
        },
        _ => clone_opt_string(&msg.content),
    };
    let tool_calls = match &msg.tool_calls {
        Some(tcs) => {
            let mut out: Vec<OpenAIToolCall> = Vec::new();
            for i in 0..tcs.len()
                invariant
                    out.len() == i,
                    forall|j: int| 0 <= j < i ==> wire_call_of(#[trigger] out@[j], tcs@[j]@),
            {
                out.push(convert_tool_call(&tcs[i]));
            }
            Some(out)
        },
        None => None,
    };
    OpenAIMessage {
        role: msg.role.as_str().to_string(),
        content,
        tool_calls,
        name: clone_opt_string(&msg.name),
        tool_call_id: clone_opt_string(&msg.tool_call_id),
    }
}

/// The wire forms of messages, in order.
pub fn convert_messages(msgs: &[LlmMessage]) -> (w: Vec<OpenAIMessage>)
    ensures
        w.len() == msgs.len(),
        forall|i: int| 0 <= i < msgs.len() ==> wire_message_of(#[trigger] w@[i], msgs@[i]@),
{
    let mut out: Vec<OpenAIMessage> = Vec::new();
    for i in 0..msgs.len()
        invariant
            out.len() == i,
            forall|j: int| 0 <= j < i ==> wire_message_of(#[trigger] out@[j], msgs@[j]@),
    {
        out.push(convert_message(&msgs[i]));
    }
    out
}

/// The tool call a wire tool call of a response stands for.
pub open spec fn call_from_wire(w: OpenAIToolCall) -> ToolCallView {
    ToolCallView {
        id: opt_str(w.id),
        index: w.index,
        function: FunctionCallView {
            name: Some(w.function.name@),
            arguments: Some(w.function.arguments@),
        },
        call_type: w.type_@,
    }
}

/// The assistant message a response message stands for.
pub open spec fn message_from_wire(m: ResponseMessage) -> LlmMessageView {
    LlmMessageView {
        role: Role::Assistant,
        content: opt_str(m.content),
        tool_calls: match m.tool_calls {
            Some(v) => Some(v@.map_values(|w: OpenAIToolCall| call_from_wire(w))),
            None => None,
        },
        name: None,
        tool_call_id: None,
    }
}

/// The tool call of a response's wire tool call.
fn tool_call_from_wire(w: &OpenAIToolCall) -> (t: ToolCall)
    ensures
        t@ == call_from_wire(*w),
{
    ToolCall {
        id: clone_opt_string(&w.id),
        index: w.index,
        function: FunctionCall {
            name: Some(w.function.name.clone()),
            arguments: Some(w.function.arguments.clone()),
        },
        call_type: w.type_.clone(),
    }
}

/// The assistant message of a response message.
pub fn convert_response_message(msg: &ResponseMessage) -> (m: LlmMessage)
    ensures
        m@ == message_from_wire(*msg),
{
    let tool_calls = match &msg.tool_calls {
        Some(tcs) => {
            let mut out: Vec<ToolCall> = Vec::new();
            for i in 0..tcs.len()
                invariant
                    out.len() == i,
                    forall|j: int| 0 <= j < i ==> (#[trigger] out@[j])@ == call_from_wire(tcs@[j]),
            {
                out.push(tool_call_from_wire(&tcs[i]));
            }
            assert(out@.map_values(|t: ToolCall| t@) =~= tcs@.map_values(
                |w: OpenAIToolCall| call_from_wire(w),
            ));
            Some(out)
        },
        None => None,
    };
    LlmMessage {
        role: Role::Assistant,
        content: clone_opt_string(&msg.content),
        tool_calls,
        name: None,
        tool_call_id: None,
    }
}

/// The usage of a wire usage.
pub open spec fn usage_from_wire(u: Option<Usage>) -> Option<LlmUsage> {
    match u {
        Some(u) => Some(LlmUsage { prompt_tokens: u.prompt_tokens, completion_tokens: u.completion_tokens }),
        None => None,
    }
}

pub fn convert_usage(u: &Option<Usage>) -> (r: Option<LlmUsage>)
    ensures
        r == usage_from_wire(*u),
{
    match u {
        Some(u) => Some(LlmUsage { prompt_tokens: u.prompt_tokens, completion_tokens: u.completion_tokens }),
        None => None,
    }
}

/// The result of a complete request: the provider's error for a non-success
/// status; a parse error when the body did not parse (`parsed` holds the
/// parser's message then), has no choice, or its first choice has no message;
/// otherwise the first choice's message with its finish reason and the usage.
pub open spec fn completion_outcome(
    provider: Seq<char>,
    status: u16,
    body: Seq<char>,
    parsed: Result<ChatResponse, String>,
    r: LlmResult<LlmChunk>,
) -> bool {
    if !is_success_status(status) {
        r matches Err(LlmError::ApiError { provider: p, status: s, message: m }) && p@ == provider
            && s == status && m@ == body
    } else {
        match parsed {
            Err(reason) => r matches Err(LlmError::ParseError(m)) && m@ == parse_failure_text(
                reason@,
                body,
            ),
            Ok(resp) => if resp.choices.len() == 0 {
                r matches Err(LlmError::ParseError(m)) && m@ == "No choices in response"@
            } else {
                match resp.choices@[0].message {
                    None => r matches Err(LlmError::ParseError(m)) && m@
                        == "No message in choice"@,
                    Some(msg) => r matches Ok(c) && c@ == (LlmChunkView {
                        message: message_from_wire(msg),
                        finish_reason: opt_str(resp.choices@[0].finish_reason),
                        usage: usage_from_wire(resp.usage),
                    }),
                }
            },
        }
    }
}

/// Decides the result of a complete request from the HTTP status, the body and
/// what the body parsed to.
pub fn completion_result(
    provider: &str,
    status: u16,
    body: String,
    parsed: Result<ChatResponse, String>,
) -> (r: LlmResult<LlmChunk>)
    ensures
        completion_outcome(provider@, status, body@, parsed, r),
{
    if !(200 <= status && status < 300) {
        return Err(api_error(provider, status, body));
    }
    match parsed {
        Err(reason) => Err(parse_failure(reason.as_str(), body.as_str())),
        Ok(resp) => {
            if resp.choices.len() == 0 {
                return Err(LlmError::ParseError("No choices in response".to_string()));
            }
            let choice = &resp.choices[0];
            match &choice.message {
                None => Err(LlmError::ParseError("No message in choice".to_string())),
                Some(msg) => Ok(
                    LlmChunk {
                        message: convert_response_message(msg),
                        finish_reason: clone_opt_string(&choice.finish_reason),
                        usage: convert_usage(&resp.usage),
                    },
                ),
            }
        },
    }
}

/// The first parsed event that has a choice.
pub open spec fn first_with_choice(parsed: Seq<Option<StreamChunk>>) -> Option<StreamChunk>
    decreases parsed.len(),
{
    if parsed.len() == 0 {
        None
    } else {
        match parsed[0] {
            Some(c) => if c.choices.len() > 0 {
                Some(c)
            } else {
                first_with_choice(parsed.drop_first())
            },
            None => first_with_choice(parsed.drop_first()),
        }
    }
}

/// The empty assistant message.
pub open spec fn empty_assistant() -> LlmMessageView {
    LlmMessageView {
        role: Role::Assistant,
        content: Some(Seq::empty()),
        tool_calls: None,
        name: None,
        tool_call_id: None,
    }
}

/// The chunk one received piece of a stream yields: the first event (in line
/// order) that parsed and has a choice gives its delta, or else its message,
/// or else an empty assistant message, with its finish reason and usage;
/// without such an event the chunk is an empty assistant message.
pub open spec fn stream_piece_chunk(parsed: Seq<Option<StreamChunk>>) -> LlmChunkView {
    match first_with_choice(parsed) {
        Some(c) => {
            let choice = c.choices@[0];
            LlmChunkView {
                message: match choice.delta {
                    Some(d) => message_from_wire(d),
                    None => match choice.message {
                        Some(m) => message_from_wire(m),
                        None => empty_assistant(),
                    },
                },
                finish_reason: opt_str(choice.finish_reason),
                usage: usage_from_wire(c.usage),
            }
        },
        None => LlmChunkView { message: empty_assistant(), finish_reason: None, usage: None },
    }
}

/// The chunk of one received piece of a stream, from the parse results of its
/// data payloads (`None` where a payload did not parse), in line order.
pub fn stream_chunk_from_events(parsed: &Vec<Option<StreamChunk>>) -> (c: LlmChunk)
    ensures
        c@ == stream_piece_chunk(parsed@),
{
    proof {
        reveal_strlit("");
        assert(""@ =~= Seq::<char>::empty());
        assert(parsed@.skip(0) == parsed@);
    }
    let mut i: usize = 0;
    while i < parsed.len()
        invariant
            i <= parsed.len(),
            first_with_choice(parsed@) == first_with_choice(parsed@.skip(i as int)),
        decreases parsed.len() - i,
    {
        assert(parsed@.skip(i as int).drop_first() == parsed@.skip(i + 1));
        assert(parsed@.skip(i as int)[0] == parsed@[i as int]);
        match &parsed[i] {
            Some(chunk) => {
                if chunk.choices.len() > 0 {
                    assert(first_with_choice(parsed@.skip(i as int)) == Some(*chunk));
                    let choice = &chunk.choices[0];
                    let message = match &choice.delta {
                        Some(d) => convert_response_message(d),
                        None => match &choice.message {
                            Some(m) => convert_response_message(m),
                            None => {
                                proof {
                                    reveal_strlit("");
                                    assert(""@ =~= Seq::<char>::empty());
                                }
                                LlmMessage::assistant("")
                            },
                        },
                    };
                    return LlmChunk {
                        message,
                        finish_reason: clone_opt_string(&choice.finish_reason),
                        usage: convert_usage(&chunk.usage),
                    };
                }
            },
            None => {},
        }
        i = i + 1;
    }
    assert(parsed@.skip(i as int).len() == 0);
    LlmChunk { message: LlmMessage::assistant(""), finish_reason: None, usage: None }
}

/// Text parts joined by line feeds.
pub open spec fn joined_parts(parts: Seq<Seq<char>>) -> Seq<char>
    decreases parts.len(),
{
    if parts.len() == 0 {
        Seq::empty()
    } else if parts.len() == 1 {
        parts[0]
    } else {
        joined_parts(parts.drop_last()) + seq!['\n'] + parts.last()
    }
}

/// The content of a message given as a list of content chunks: the texts of
/// the text chunks joined by line feeds, or none when there is no text chunk.
pub fn join_content_parts(parts: &Vec<String>) -> (r: Option<String>)
    ensures
        match r {
            Some(s) => parts.len() > 0 && s@ == joined_parts(crate::text::strings_view(parts@)),
            None => parts.len() == 0,
        },
{
    if parts.len() == 0 {
        return None;
    }
    let ghost pv = crate::text::strings_view(parts@);
    let mut s = parts[0].clone();
    assert(pv.take(1) =~= seq![pv[0]]);
    for i in 1..parts.len()
        invariant
            parts.len() >= 1,
            pv == crate::text::strings_view(parts@),
            s@ == joined_parts(pv.take(i as int)),
    {
        crate::text::push_char(&mut s, '\n');
        crate::text::append_str(&mut s, parts[i].as_str());
        assert(pv.take(i + 1).drop_last() =~= pv.take(i as int));
    }
    assert(pv.take(parts.len() as int) =~= pv);
    Some(s)
}


/// The content sent for a message is its own content, except that empty
/// content beside tool calls is left out: text is always sent, a message
/// without tool calls is sent as it is, and a message without content is sent
/// without content.
pub proof fn law_message_content_is_sent(w: OpenAIMessage, m: LlmMessageView)
    requires
        wire_message_of(w, m),
    ensures
        m.content matches Some(c) && c.len() > 0 ==> opt_str(w.content) == m.content,
        m.tool_calls is None ==> opt_str(w.content) == m.content,
        m.content is None ==> w.content is None,
        m.content matches Some(c) && c.len() == 0 && m.tool_calls is Some ==> w.content is None,
{
}

} // verus!
