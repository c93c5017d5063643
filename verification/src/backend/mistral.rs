//! The wire format of the Mistral API, its conversion to and from the
//! library's messages, and the accumulation of a streamed answer.
use vstd::prelude::*;
use vstd::utf8::{decode_utf8, valid_utf8};
use crate::backend::{api_error, is_success_status, parse_failure, parse_failure_text, LlmError, LlmResult};
use crate::backend::generic::{convert_usage, or_empty, sent_content, usage_from_wire, Usage};
use crate::backend::sse::{
    complete_lines, decoded_parts, fed_lines, law_fed_bytes_cover_the_stream, law_fed_lines_cover_the_stream,
};
use crate::types::{
    clone_opt_string, opt_str, FunctionCall, FunctionCallView, LlmChunk, LlmChunkView, LlmMessage,
    LlmMessageView, LlmUsage, Role, ToolCall, ToolCallView, role_name, tool_calls_view,
};

verus! {

/// A function call on the wire.
#[derive(Debug)]
pub struct MistralFunctionCall {
    pub name: String,
    pub arguments: String,
}

/// A tool call on the wire; its type may be left out.
#[derive(Debug)]
pub struct MistralToolCall {
    pub id: Option<String>,
    pub type_: Option<String>,
    pub function: MistralFunctionCall,
    pub index: Option<usize>,
}

/// A request message on the wire.
#[derive(Debug)]
pub struct MistralMessage {
    pub role: String,
    pub content: Option<String>,
    pub tool_calls: Option<Vec<MistralToolCall>>,
    pub name: Option<String>,
    pub tool_call_id: Option<String>,
}

/// The message (or delta) of a response choice.
#[derive(Debug)]
pub struct ResponseMessage {
    pub content: Option<String>,
    pub tool_calls: Option<Vec<MistralToolCall>>,
}

/// One choice of a response.
#[derive(Debug)]
pub struct Choice {
    pub message: Option<ResponseMessage>,
    pub delta: Option<ResponseMessage>,
    pub finish_reason: Option<String>,
}

/// A complete (non-streamed) response.
#[derive(Debug)]
pub struct ChatResponse {
    pub choices: Vec<Choice>,
    pub usage: Option<Usage>,
}

/// One event of a streamed response.
#[derive(Debug)]
pub struct StreamChunk {
    pub choices: Vec<Choice>,
    pub usage: Option<Usage>,
}

/// `w` is the wire form of the tool call `t`: the type is always sent, absent
/// names and arguments are sent empty.
pub open spec fn wire_call_of(w: MistralToolCall, t: ToolCallView) -> bool {
    &&& opt_str(w.id) == t.id
    &&& opt_str(w.type_) == Some(t.call_type)
    &&& w.function.name@ == or_empty(t.function.name)
    &&& w.function.arguments@ == or_empty(t.function.arguments)
    &&& w.index == t.index
}

/// `w` is the wire form of the message `m`.
pub open spec fn wire_message_of(w: MistralMessage, m: LlmMessageView) -> bool {
    &&& w.role@ == role_name(m.role)
    &&& opt_str(w.content) == sent_content(m)
    &&& match (w.tool_calls, m.tool_calls) {
        (Some(ws), Some(ts)) => ws.len() == ts.len() && forall|i: int|
            0 <= i < ts.len() ==> wire_call_of(#[trigger] ws@[i], ts[i]),
        (None, None) => true,
        _ => false,
    }
    &&& opt_str(w.name) == m.name
    &&& opt_str(w.tool_call_id) == m.tool_call_id
}

fn unwrap_or_empty(o: &Option<String>) -> (s: String)
    ensures
        s@ == or_empty(opt_str(*o)),
{
    match o {
        Some(s) => s.clone(),
        None => String::new(),
    }
}

fn convert_tool_call(tc: &ToolCall) -> (w: MistralToolCall)
    ensures
        wire_call_of(w, tc@),
{
    MistralToolCall {
        id: clone_opt_string(&tc.id),
        type_: Some(tc.call_type.clone()),
        function: MistralFunctionCall {
            name: unwrap_or_empty(&tc.function.name),
            arguments: unwrap_or_empty(&tc.function.arguments),
        },
        index: tc.index,
    }
}

/// The wire form of a message.
pub fn convert_message(msg: &LlmMessage) -> (w: MistralMessage)
    ensures
        wire_message_of(w, msg@),
{
    let content = match (&msg.content, &msg.tool_calls) {
        (Some(c), Some(_)) => if c.as_str().is_empty() {
            None
        } else {
            clone_opt_string(&msg.content)
        },
        _ => clone_opt_string(&msg.content),
    };
    let tool_calls = match &msg.tool_calls {
        Some(tcs) => {
            let mut out: Vec<MistralToolCall> = Vec::new();
            for i in 0..tcs.len()
                invariant
                    out.len() == i,
                    forall|j: int| 0 <= j < i ==> wire_call_of(#[trigger] out@[j], tcs@[j]@),
            {
                out.push(convert_tool_call(&tcs[i]));
            }
            Some(out)
        },
        None => None,
    };
    MistralMessage {
        role: msg.role.as_str().to_string(),
        content,
        tool_calls,
        name: clone_opt_string(&msg.name),
        tool_call_id: clone_opt_string(&msg.tool_call_id),
    }
}

/// The wire forms of messages, in order.
pub fn convert_messages(msgs: &[LlmMessage]) -> (w: Vec<MistralMessage>)
    ensures
        w.len() == msgs.len(),
        forall|i: int| 0 <= i < msgs.len() ==> wire_message_of(#[trigger] w@[i], msgs@[i]@),
{
    let mut out: Vec<MistralMessage> = Vec::new();
    for i in 0..msgs.len()
        invariant
            out.len() == i,
            forall|j: int| 0 <= j < i ==> wire_message_of(#[trigger] out@[j], msgs@[j]@),
    {
        out.push(convert_message(&msgs[i]));
    }
    out
}

/// The type of a received tool call: `function` when the provider left it out.
pub open spec fn received_type(t: Option<String>) -> Seq<char> {
    match t {
        Some(s) => s@,
        None => "function"@,
    }
}

fn received_type_of(t: &Option<String>) -> (s: String)
    ensures
        s@ == received_type(*t),
{
    match t {
        Some(s) => s.clone(),
        None => "function".to_string(),
    }
}

/// The tool call a wire tool call of a complete response stands for.
pub open spec fn call_from_wire(w: MistralToolCall) -> ToolCallView {
    ToolCallView {
        id: opt_str(w.id),
        index: w.index,
        function: FunctionCallView {
            name: Some(w.function.name@),
            arguments: Some(w.function.arguments@),
        },
        call_type: received_type(w.type_),
    }
}

/// The assistant message a response message stands for.
pub open spec fn message_from_wire(m: ResponseMessage) -> LlmMessageView {
    LlmMessageView {
        role: Role::Assistant,
        content: opt_str(m.content),
        tool_calls: match m.tool_calls {
            Some(v) => Some(v@.map_values(|w: MistralToolCall| call_from_wire(w))),
            None => None,
        },
        name: None,
        tool_call_id: None,
    }
}

fn tool_call_from_wire(w: &MistralToolCall) -> (t: ToolCall)
    ensures
        t@ == call_from_wire(*w),
{
    ToolCall {
        id: clone_opt_string(&w.id),
        index: w.index,
        function: FunctionCall {
            name: Some(w.function.name.clone()),
            arguments: Some(w.function.arguments.clone()),
        },
        call_type: received_type_of(&w.type_),
    }
}

/// The assistant message of a response message.
pub fn convert_response_message(msg: &ResponseMessage) -> (m: LlmMessage)
    ensures
        m@ == message_from_wire(*msg),
{
    let tool_calls = match &msg.tool_calls {
        Some(tcs) => {
            let mut out: Vec<ToolCall> = Vec::new();
            for i in 0..tcs.len()
                invariant
                    out.len() == i,
                    forall|j: int| 0 <= j < i ==> (#[trigger] out@[j])@ == call_from_wire(tcs@[j]),
            {
                out.push(tool_call_from_wire(&tcs[i]));
            }
            assert(out@.map_values(|t: ToolCall| t@) =~= tcs@.map_values(
                |w: MistralToolCall| call_from_wire(w),
            ));
            Some(out)
        },
        None => None,
    };
    LlmMessage {
        role: Role::Assistant,
        content: clone_opt_string(&msg.content),
        tool_calls,
        name: None,
        tool_call_id: None,
    }
}

/// The result of a complete request, as for OpenAI-compatible providers.
pub open spec fn completion_outcome(
    provider: Seq<char>,
    status: u16,
    body: Seq<char>,
    parsed: Result<ChatResponse, String>,
    r: LlmResult<LlmChunk>,
) -> bool {
    if !is_success_status(status) {
        r matches Err(LlmError::ApiError { provider: p, status: s, message: m }) && p@ == provider
            && s == status && m@ == body
    } else {
        match parsed {
            Err(reason) => r matches Err(LlmError::ParseError(m)) && m@ == parse_failure_text(
                reason@,
                body,
            ),
            Ok(resp) => if resp.choices.len() == 0 {
                r matches Err(LlmError::ParseError(m)) && m@ == "No choices in response"@
            } else {
                match resp.choices@[0].message {
                    None => r matches Err(LlmError::ParseError(m)) && m@
                        == "No message in choice"@,
                    Some(msg) => r matches Ok(c) && c@ == (LlmChunkView {
                        message: message_from_wire(msg),
                        finish_reason: opt_str(resp.choices@[0].finish_reason),
                        usage: usage_from_wire(resp.usage),
                    }),
                }
            },
        }
    }
}

/// Decides the result of a complete request from the HTTP status, the body and
/// what the body parsed to.
pub fn completion_result(
    provider: &str,
    status: u16,
    body: String,
    parsed: Result<ChatResponse, String>,
) -> (r: LlmResult<LlmChunk>)
    ensures
        completion_outcome(provider@, status, body@, parsed, r),
{
    if !(200 <= status && status < 300) {
        return Err(api_error(provider, status, body));
    }
    match parsed {
        Err(reason) => Err(parse_failure(reason.as_str(), body.as_str())),
        Ok(resp) => {
            if resp.choices.len() == 0 {
                return Err(LlmError::ParseError("No choices in response".to_string()));
            }
            let choice = &resp.choices[0];
            match &choice.message {
                None => Err(LlmError::ParseError("No message in choice".to_string())),
                Some(msg) => Ok(
                    LlmChunk {
                        message: convert_response_message(msg),
                        finish_reason: clone_opt_string(&choice.finish_reason),
                        usage: convert_usage(&resp.usage),
                    },
                ),
            }
        },
    }
}

// ---------------------------------------------------------------- streaming

/// One line of a streamed answer, as the accumulation sees it.
#[derive(Debug)]
pub enum StreamEvent {
    /// The end marker.
    Done,
    /// A data line whose payload parsed.
    Chunk(StreamChunk),
    /// Any other line, or a data line that did not parse.
    Ignored,
}

/// What has been gathered of a streamed answer so far.
pub struct StreamState {
    pub content: Seq<char>,
    pub calls: Seq<ToolCallView>,
    pub finish: Option<Seq<char>>,
    pub usage: Option<LlmUsage>,
}

/// Nothing gathered yet.
pub open spec fn stream_start() -> StreamState {
    StreamState { content: Seq::empty(), calls: Seq::empty(), finish: None, usage: None }
}

/// An optional streamed string: an empty one counts as absent.
pub open spec fn non_empty(s: Seq<char>) -> Option<Seq<char>> {
    if s.len() == 0 {
        None
    } else {
        Some(s)
    }
}

/// The tool call a streamed wire tool call stands for: empty names and
/// arguments count as absent, a missing type is `function`.
pub open spec fn streamed_call(w: MistralToolCall) -> ToolCallView {
    ToolCallView {
        id: opt_str(w.id),
        index: w.index,
        function: FunctionCallView {
            name: non_empty(w.function.name@),
            arguments: non_empty(w.function.arguments@),
        },
        call_type: received_type(w.type_),
    }
}

/// `st` after the content and tool calls of one streamed message.
pub open spec fn take_message(st: StreamState, m: ResponseMessage) -> StreamState {
    StreamState {
        content: st.content + or_empty(opt_str(m.content)),
        calls: st.calls + match m.tool_calls {
            Some(v) => v@.map_values(|w: MistralToolCall| streamed_call(w)),
            None => Seq::empty(),
        },
        finish: st.finish,
        usage: st.usage,
    }
}

/// `st` after one line of the stream. The end marker sets the finish reason to
/// `stop` unless one is known. An event with a choice contributes its delta, or
/// else its message; a finish reason or usage that it carries replaces the
/// one known before. Other lines change nothing.
pub open spec fn stream_step(st: StreamState, ev: StreamEvent) -> StreamState {
    match ev {
        StreamEvent::Done => if st.finish is None {
            StreamState { finish: Some("stop"@), ..st }
        } else {
            st
        },
        StreamEvent::Ignored => st,
        StreamEvent::Chunk(c) => if c.choices.len() == 0 {
            st
        } else {
            let ch = c.choices@[0];
            let st1 = match ch.delta {
                Some(d) => take_message(st, d),
                None => match ch.message {
                    Some(m) => take_message(st, m),
                    None => st,
                },
            };
            let st2 = if ch.finish_reason is Some {
                StreamState { finish: opt_str(ch.finish_reason), ..st1 }
            } else {
                st1
            };
            if c.usage is Some {
                StreamState { usage: usage_from_wire(c.usage), ..st2 }
            } else {
                st2
            }
        },
    }
}

/// What the lines `evs` gather, in order.
pub open spec fn stream_fold(evs: Seq<StreamEvent>) -> StreamState
    decreases evs.len(),
{
    if evs.len() == 0 {
        stream_start()
    } else {
        stream_step(stream_fold(evs.drop_last()), evs.last())
    }
}

/// The chunk that what was gathered makes: one assistant message with the
/// gathered content and tool calls (each absent when empty), the finish reason
/// and the usage.
pub open spec fn chunk_of_state(st: StreamState) -> LlmChunkView {
    LlmChunkView {
        message: LlmMessageView {
            role: Role::Assistant,
            content: non_empty(st.content),
            tool_calls: if st.calls.len() == 0 { None } else { Some(st.calls) },
            name: None,
            tool_call_id: None,
        },
        finish_reason: st.finish,
        usage: st.usage,
    }
}

fn non_empty_string(s: &String) -> (r: Option<String>)
    ensures
        opt_str(r) == non_empty(s@),
{
    if s.as_str().is_empty() {
        None
    } else {
        Some(s.clone())
    }
}

fn streamed_call_of(w: &MistralToolCall) -> (t: ToolCall)
    ensures
        t@ == streamed_call(*w),
{
    ToolCall {
        id: clone_opt_string(&w.id),
        index: w.index,
        function: FunctionCall {
            name: non_empty_string(&w.function.name),
            arguments: non_empty_string(&w.function.arguments),
        },
        call_type: received_type_of(&w.type_),
    }
}

/// Adds the content and tool calls of one streamed message.
fn gather_message(content: &mut String, calls: &mut Vec<ToolCall>, m: &ResponseMessage)
    ensures
        final(content)@ == old(content)@ + or_empty(opt_str(m.content)),
        tool_calls_view(final(calls)@) == tool_calls_view(old(calls)@) + match m.tool_calls {
            Some(v) => v@.map_values(|w: MistralToolCall| streamed_call(w)),
            None => Seq::empty(),
        },
{
    if let Some(c) = &m.content {
        content.append(c.as_str());
    } else {
        assert(content@ =~= content@ + Seq::<char>::empty());
    }
    let ghost start = tool_calls_view(calls@);
    match &m.tool_calls {
        Some(tcs) => {
            for i in 0..tcs.len()
                invariant
                    tool_calls_view(calls@) == start + tcs@.take(i as int).map_values(
                        |w: MistralToolCall| streamed_call(w),
                    ),
            {
                let ghost before = calls@;
                let t = streamed_call_of(&tcs[i]);
                calls.push(t);
                assert(tool_calls_view(calls@) =~= tool_calls_view(before).push(t@));
                assert(tcs@.take(i + 1).map_values(|w: MistralToolCall| streamed_call(w))
                    =~= tcs@.take(i as int).map_values(|w: MistralToolCall| streamed_call(w)).push(
                    streamed_call(tcs@[i as int]),
                ));
            }
            assert(tcs@.take(tcs.len() as int) == tcs@);
        },
        None => {
            assert(start =~= start + Seq::<ToolCallView>::empty());
        },
    }
}

/// The chunk one received piece of a stream yields, from its lines in order.
pub fn stream_chunk_from_events(events: &Vec<StreamEvent>) -> (c: LlmChunk)
    ensures
        c@ == chunk_of_state(stream_fold(events@)),
{
    let mut content = String::new();
    let mut calls: Vec<ToolCall> = Vec::new();
    let mut finish: Option<String> = None;
    let mut usage: Option<LlmUsage> = None;
    for i in 0..events.len()
        invariant
            ({
                let st = stream_fold(events@.take(i as int));
                &&& content@ == st.content
                &&& tool_calls_view(calls@) == st.calls
                &&& opt_str(finish) == st.finish
                &&& usage == st.usage
            }),
    {
        assert(events@.take(i + 1).drop_last() == events@.take(i as int));
        assert(events@.take(i + 1).last() == events@[i as int]);
        match &events[i] {
            StreamEvent::Done => {
                if finish.is_none() {
                    finish = Some("stop".to_string());
                }
            },
            StreamEvent::Ignored => {},
            StreamEvent::Chunk(chunk) => {
                if chunk.choices.len() > 0 {
                    let choice = &chunk.choices[0];
                    match &choice.delta {
                        Some(d) => gather_message(&mut content, &mut calls, d),
                        None => match &choice.message {
                            Some(m) => gather_message(&mut content, &mut calls, m),
                            None => {},
                        },
                    }
                    if choice.finish_reason.is_some() {
                        finish = clone_opt_string(&choice.finish_reason);
                    }
                    if chunk.usage.is_some() {
                        usage = convert_usage(&chunk.usage);
                    }
                }
            },
        }
    }
    assert(events@.take(events.len() as int) == events@);
    let content_out = non_empty_string(&content);
    let calls_out = if calls.len() == 0 {
        None
    } else {
        Some(calls)
    };
    LlmChunk {
        message: LlmMessage {
            role: Role::Assistant,
            content: content_out,
            tool_calls: calls_out,
            name: None,
            tool_call_id: None,
        },
        finish_reason: finish,
        usage,
    }
}


// ---------------------------------------------------------------- laws

/// The text and tool calls one line contributes to a streamed answer.
pub open spec fn event_gain(ev: StreamEvent) -> (Seq<char>, Seq<ToolCallView>) {
    let st = stream_step(stream_start(), ev);
    (st.content, st.calls)
}

proof fn lemma_step_gain(st: StreamState, ev: StreamEvent)
    ensures
        stream_step(st, ev).content == st.content + event_gain(ev).0,
        stream_step(st, ev).calls == st.calls + event_gain(ev).1,
{
    assert(st.content =~= st.content + Seq::<char>::empty());
    assert(st.calls =~= st.calls + Seq::<ToolCallView>::empty());
    match ev {
        StreamEvent::Chunk(c) => {
            if c.choices.len() > 0 {
                let ch = c.choices@[0];
                let m = match ch.delta {
                    Some(d) => Some(d),
                    None => ch.message,
                };
                if let Some(m) = m {
                    let e = stream_start();
                    assert(take_message(e, m).content =~= or_empty(opt_str(m.content)));
                    assert(take_message(e, m).calls =~= match m.tool_calls {
                        Some(v) => v@.map_values(|w: MistralToolCall| streamed_call(w)),
                        None => Seq::empty(),
                    });
                }
            }
        },
        _ => {},
    }
}

/// Folding two runs of events one after the other gathers the text and tool
/// calls of the first run, then those of the second.
proof fn lemma_fold_concat(a: Seq<StreamEvent>, b: Seq<StreamEvent>)
    ensures
        stream_fold(a + b).content == stream_fold(a).content + stream_fold(b).content,
        stream_fold(a + b).calls == stream_fold(a).calls + stream_fold(b).calls,
    decreases b.len(),
{
    if b.len() == 0 {
        assert(a + b =~= a);
        assert(stream_fold(a).content =~= stream_fold(a).content + Seq::<char>::empty());
        assert(stream_fold(a).calls =~= stream_fold(a).calls + Seq::<ToolCallView>::empty());
    } else {
        lemma_fold_concat(a, b.drop_last());
        assert((a + b).drop_last() =~= a + b.drop_last());
        assert((a + b).last() == b.last());
        lemma_step_gain(stream_fold(a + b.drop_last()), b.last());
        lemma_step_gain(stream_fold(b.drop_last()), b.last());
        assert(stream_fold(a).content + stream_fold(b.drop_last()).content + event_gain(b.last()).0
            =~= stream_fold(a).content + (stream_fold(b.drop_last()).content + event_gain(b.last()).0));
        assert(stream_fold(a).calls + stream_fold(b.drop_last()).calls + event_gain(b.last()).1
            =~= stream_fold(a).calls + (stream_fold(b.drop_last()).calls + event_gain(b.last()).1));
    }
}

/// The text of a streamed chunk, empty when it has none.
pub open spec fn chunk_text(c: LlmChunkView) -> Seq<char> {
    or_empty(c.message.content)
}

/// The tool calls of a streamed chunk, none when it has none.
pub open spec fn chunk_calls(c: LlmChunkView) -> Seq<ToolCallView> {
    match c.message.tool_calls {
        Some(v) => v,
        None => Seq::empty(),
    }
}

/// The chunks yielded for the lines each received piece completed, when each
/// line stands for the event `event_of` gives it.
pub open spec fn piece_chunks(
    per_piece: Seq<Seq<Seq<char>>>,
    event_of: spec_fn(Seq<char>) -> StreamEvent,
) -> Seq<LlmChunkView> {
    per_piece.map_values(
        |lines: Seq<Seq<char>>| chunk_of_state(stream_fold(lines.map_values(|l: Seq<char>| event_of(l)))),
    )
}

/// The texts of chunks, joined in order.
pub open spec fn joined_text(cs: Seq<LlmChunkView>) -> Seq<char>
    decreases cs.len(),
{
    if cs.len() == 0 {
        Seq::empty()
    } else {
        chunk_text(cs[0]) + joined_text(cs.drop_first())
    }
}

/// The tool calls of chunks, joined in order.
pub open spec fn joined_calls(cs: Seq<LlmChunkView>) -> Seq<ToolCallView>
    decreases cs.len(),
{
    if cs.len() == 0 {
        Seq::empty()
    } else {
        chunk_calls(cs[0]) + joined_calls(cs.drop_first())
    }
}

proof fn lemma_chunks_gather_all_lines(
    per_piece: Seq<Seq<Seq<char>>>,
    event_of: spec_fn(Seq<char>) -> StreamEvent,
)
    ensures
        joined_text(piece_chunks(per_piece, event_of)) == stream_fold(
            per_piece.flatten().map_values(|l: Seq<char>| event_of(l)),
        ).content,
        joined_calls(piece_chunks(per_piece, event_of)) == stream_fold(
            per_piece.flatten().map_values(|l: Seq<char>| event_of(l)),
        ).calls,
    decreases per_piece.len(),
{
    let f = |l: Seq<char>| event_of(l);
    if per_piece.len() == 0 {
        assert(per_piece.flatten().map_values(f) =~= Seq::<StreamEvent>::empty());
    } else {
        let rest = per_piece.drop_first();
        lemma_chunks_gather_all_lines(rest, event_of);
        let cs = piece_chunks(per_piece, event_of);
        assert(cs.drop_first() =~= piece_chunks(rest, event_of));
        let first = per_piece[0].map_values(f);
        assert(per_piece.flatten() == per_piece.first() + rest.flatten());
        assert(per_piece.flatten().map_values(f) =~= first + rest.flatten().map_values(f));
        lemma_fold_concat(first, rest.flatten().map_values(f));
        let st = stream_fold(first);
        assert(chunk_text(cs[0]) == st.content);
        assert(chunk_calls(cs[0]) == st.calls);
    }
}

/// However a stream is cut into received pieces, the answer it streams is the
/// same: the texts of the chunks yielded for the pieces, joined in order, are
/// the text gathered from all its complete lines, and so are the tool calls.
/// No line is lost or read twice. Each line stands for the event `event_of`
/// gives it (the parse of its payload).
pub proof fn law_streamed_answer_whatever_the_split(
    parts: Seq<Seq<char>>,
    event_of: spec_fn(Seq<char>) -> StreamEvent,
)
    ensures
        ({
            let chunks = piece_chunks(fed_lines(Seq::empty(), parts), event_of);
            let whole = stream_fold(complete_lines(parts.flatten()).map_values(|l: Seq<char>| event_of(l)));
            &&& joined_text(chunks) == whole.content
            &&& joined_calls(chunks) == whole.calls
        }),
{
    law_fed_lines_cover_the_stream(Seq::empty(), parts);
    assert(Seq::<char>::empty() + parts.flatten() =~= parts.flatten());
    lemma_chunks_gather_all_lines(fed_lines(Seq::empty(), parts), event_of);
}


/// The same for a stream of valid UTF-8 that arrives in byte pieces cut on
/// character boundaries (each piece decoded exactly, as `SseLineBuffer::feed`
/// states): the texts and tool calls of the chunks yielded per piece, joined
/// in order, are those gathered from all complete lines of the whole stream.
pub proof fn law_streamed_bytes_whatever_the_split(
    parts: Seq<Seq<u8>>,
    event_of: spec_fn(Seq<char>) -> StreamEvent,
)
    requires
        forall|i: int| 0 <= i < parts.len() ==> valid_utf8(#[trigger] parts[i]),
    ensures
        ({
            let chunks = piece_chunks(fed_lines(Seq::empty(), decoded_parts(parts)), event_of);
            let whole = stream_fold(
                complete_lines(decode_utf8(parts.flatten())).map_values(|l: Seq<char>| event_of(l)),
            );
            &&& joined_text(chunks) == whole.content
            &&& joined_calls(chunks) == whole.calls
        }),
{
    law_fed_bytes_cover_the_stream(parts);
    lemma_chunks_gather_all_lines(fed_lines(Seq::empty(), decoded_parts(parts)), event_of);
}


/// The message a line of the stream carries: the first choice's delta, or
/// else its message.
pub open spec fn carried_message(ev: StreamEvent) -> Option<ResponseMessage> {
    match ev {
        StreamEvent::Chunk(c) => if c.choices.len() > 0 {
            match c.choices@[0].delta {
                Some(d) => Some(d),
                None => c.choices@[0].message,
            }
        } else {
            None
        },
        _ => None,
    }
}

/// The wire tool calls the lines `evs` carry, in order.
pub open spec fn carried_calls(evs: Seq<StreamEvent>) -> Seq<MistralToolCall>
    decreases evs.len(),
{
    if evs.len() == 0 {
        Seq::empty()
    } else {
        carried_calls(evs.drop_last()) + match carried_message(evs.last()) {
            Some(m) => match m.tool_calls {
                Some(v) => v@,
                None => Seq::empty(),
            },
            None => Seq::empty(),
        }
    }
}

/// The texts the lines `evs` carry, joined in order.
pub open spec fn carried_text(evs: Seq<StreamEvent>) -> Seq<char>
    decreases evs.len(),
{
    if evs.len() == 0 {
        Seq::empty()
    } else {
        carried_text(evs.drop_last()) + match carried_message(evs.last()) {
            Some(m) => match m.content {
                Some(t) => t@,
                None => Seq::empty(),
            },
            None => Seq::empty(),
        }
    }
}

proof fn lemma_fold_carries(evs: Seq<StreamEvent>)
    ensures
        stream_fold(evs).content == carried_text(evs),
        stream_fold(evs).calls == carried_calls(evs).map_values(|w: MistralToolCall| streamed_call(w)),
    decreases evs.len(),
{
    if evs.len() > 0 {
        let p = evs.drop_last();
        lemma_fold_carries(p);
        let ev = evs.last();
        let added: Seq<MistralToolCall> = match carried_message(ev) {
            Some(m) => match m.tool_calls {
                Some(v) => v@,
                None => Seq::empty(),
            },
            None => Seq::empty(),
        };
        assert((carried_calls(p) + added).map_values(|w: MistralToolCall| streamed_call(w)) =~= carried_calls(
            p,
        ).map_values(|w: MistralToolCall| streamed_call(w)) + added.map_values(
            |w: MistralToolCall| streamed_call(w),
        ));
        assert(stream_fold(p).content =~= stream_fold(p).content + Seq::<char>::empty());
        assert(stream_fold(p).calls =~= stream_fold(p).calls + Seq::<ToolCallView>::empty());
        assert(Seq::<MistralToolCall>::empty().map_values(|w: MistralToolCall| streamed_call(w))
            =~= Seq::<ToolCallView>::empty());
    } else {
        assert(Seq::<MistralToolCall>::empty().map_values(|w: MistralToolCall| streamed_call(w))
            =~= Seq::<ToolCallView>::empty());
    }
}

/// `t` is the wire tool call `w` as received: the same id and index, its
/// name and arguments when not empty, and its type (or `function`).
pub open spec fn keeps_wire_call(t: ToolCallView, w: MistralToolCall) -> bool {
    &&& t.id == opt_str(w.id)
    &&& t.index == w.index
    &&& t.function.name == (if w.function.name@.len() == 0 { None } else { Some(w.function.name@) })
    &&& t.function.arguments == (if w.function.arguments@.len() == 0 {
        None
    } else {
        Some(w.function.arguments@)
    })
    &&& t.call_type == match w.type_ {
        Some(ty) => ty@,
        None => "function"@,
    }
}

/// A streamed answer keeps what its lines carried: its text is the texts of
/// the carried messages joined in order, and its tool calls are the carried
/// wire tool calls, one for one and in order, each with the id and index it
/// came with, its name and arguments when not empty, and its type (or
/// `function` when it has none).
pub proof fn law_streamed_answer_keeps_what_was_carried(evs: Seq<StreamEvent>)
    ensures
        ({
            let c = chunk_of_state(stream_fold(evs));
            let text = carried_text(evs);
            let ws = carried_calls(evs);
            &&& (text.len() == 0 ==> c.message.content is None)
            &&& (text.len() > 0 ==> c.message.content == Some(text))
            &&& (ws.len() == 0 ==> c.message.tool_calls is None)
            &&& ws.len() > 0 ==> (c.message.tool_calls matches Some(v) && v.len() == ws.len() && forall|i: int|
                0 <= i < ws.len() ==> keeps_wire_call(#[trigger] v[i], ws[i]))
        }),
{
    lemma_fold_carries(evs);
}


/// The content sent for a message is its own content, except that empty
/// content beside tool calls is left out: text is always sent, a message
/// without tool calls is sent as it is, and a message without content is sent
/// without content.
pub proof fn law_message_content_is_sent(w: MistralMessage, m: LlmMessageView)
    requires
        wire_message_of(w, m),
    ensures
        m.content matches Some(c) && c.len() > 0 ==> opt_str(w.content) == m.content,
        m.tool_calls is None ==> opt_str(w.content) == m.content,
        m.content is None ==> w.content is None,
        m.content matches Some(c) && c.len() == 0 && m.tool_calls is Some ==> w.content is None,
{
}

} // verus!
