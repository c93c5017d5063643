use revibe::backend::generic::{
    self, join_content_parts, stream_chunk_from_events, ChatResponse, Choice, OpenAIFunctionCall,
    OpenAIToolCall, ResponseMessage, StreamChunk, Usage,
};
use revibe::backend::mistral::{
    self, MistralFunctionCall, MistralToolCall, StreamEvent,
};
use revibe::backend::sse::{
    classify_sse_line, decode_received, payloads_of_received, payloads_of_text, SseLine, SseLineBuffer,
};
use revibe::backend::LlmError;
use revibe::types::{FunctionCall, LlmMessage, Role, ToolCall};

fn tool_call(id: &str, name: Option<&str>, args: Option<&str>) -> ToolCall {
    ToolCall {
        id: Some(id.to_string()),
        index: Some(0),
        function: FunctionCall { name: name.map(|s| s.to_string()), arguments: args.map(|s| s.to_string()) },
        call_type: "function".to_string(),
    }
}

#[test]
fn generic_messages_drop_empty_content_beside_tool_calls() {
    let m = LlmMessage {
        role: Role::Assistant,
        content: Some(String::new()),
        tool_calls: Some(vec![tool_call("c1", None, Some("{}"))]),
        name: None,
        tool_call_id: None,
    };
    let w = generic::convert_message(&m);
    assert_eq!(w.role, "assistant");
    assert_eq!(w.content, None);
    let calls = w.tool_calls.unwrap();
    assert_eq!(calls.len(), 1);
    assert_eq!(calls[0].function.name, "");
    assert_eq!(calls[0].function.arguments, "{}");
    assert_eq!(calls[0].type_, "function");
    let plain = LlmMessage {
        role: Role::User,
        content: Some(String::new()),
        tool_calls: None,
        name: Some("n".to_string()),
        tool_call_id: Some("t".to_string()),
    };
    let w = generic::convert_message(&plain);
    assert_eq!(w.role, "user");
    assert_eq!(w.content, Some(String::new()));
    assert_eq!(w.name, Some("n".to_string()));
    assert_eq!(w.tool_call_id, Some("t".to_string()));
    let ws = generic::convert_messages(&[plain, m]);
    assert_eq!(ws.len(), 2);
}

#[test]
fn mistral_messages_always_send_the_type() {
    let m = LlmMessage {
        role: Role::Tool,
        content: Some("out".to_string()),
        tool_calls: Some(vec![tool_call("c1", Some("bash"), None)]),
        name: None,
        tool_call_id: None,
    };
    let w = mistral::convert_message(&m);
    assert_eq!(w.role, "tool");
    assert_eq!(w.content, Some("out".to_string()));
    let calls = w.tool_calls.unwrap();
    assert_eq!(calls[0].type_, Some("function".to_string()));
    assert_eq!(calls[0].function.name, "bash");
    assert_eq!(calls[0].function.arguments, "");
    assert_eq!(mistral::convert_messages(&[m]).len(), 1);
}

fn openai_response(message: Option<&str>, finish: Option<&str>) -> ChatResponse {
    ChatResponse {
        choices: vec![Choice {
            message: message.map(|c| ResponseMessage {
                content: Some(c.to_string()),
                tool_calls: Some(vec![OpenAIToolCall {
                    id: Some("t1".to_string()),
                    type_: "function".to_string(),
                    function: OpenAIFunctionCall { name: "bash".to_string(), arguments: "{}".to_string() },
                    index: None,
                }]),
            }),
            delta: None,
            finish_reason: finish.map(|s| s.to_string()),
        }],
        usage: Some(Usage { prompt_tokens: 10, completion_tokens: 2 }),
    }
}

#[test]
fn generic_completion_outcomes() {
    match generic::completion_result("p", 500, "boom".to_string(), Err("x".to_string())) {
        Err(LlmError::ApiError { provider, status, message }) => {
            assert_eq!((provider.as_str(), status, message.as_str()), ("p", 500, "boom"));
        }
        other => panic!("unexpected {:?}", other),
    }
    match generic::completion_result("p", 200, "{".to_string(), Err("EOF".to_string())) {
        Err(LlmError::ParseError(m)) => assert_eq!(m, "Failed to parse response: EOF\nBody: {"),
        other => panic!("unexpected {:?}", other),
    }
    let empty = ChatResponse { choices: vec![], usage: None };
    match generic::completion_result("p", 200, String::new(), Ok(empty)) {
        Err(LlmError::ParseError(m)) => assert_eq!(m, "No choices in response"),
        other => panic!("unexpected {:?}", other),
    }
    match generic::completion_result("p", 200, String::new(), Ok(openai_response(None, None))) {
        Err(LlmError::ParseError(m)) => assert_eq!(m, "No message in choice"),
        other => panic!("unexpected {:?}", other),
    }
    let chunk = generic::completion_result("p", 201, String::new(), Ok(openai_response(Some("hi"), Some("stop"))))
        .unwrap();
    assert_eq!(chunk.message.role, Role::Assistant);
    assert_eq!(chunk.message.content, Some("hi".to_string()));
    let calls = chunk.message.tool_calls.unwrap();
    assert_eq!(calls[0].function.name, Some("bash".to_string()));
    assert_eq!(calls[0].function.arguments, Some("{}".to_string()));
    assert_eq!(calls[0].id, Some("t1".to_string()));
    assert_eq!(chunk.finish_reason, Some("stop".to_string()));
    assert_eq!(chunk.usage.unwrap().prompt_tokens, 10);
}

#[test]
fn generic_stream_piece_takes_the_first_event_with_a_choice() {
    let payloads = payloads_of_received(b"event: x\ndata: {\"a\":1}\r\ndata: [DONE]\ndata: second\n");
    assert_eq!(payloads, vec!["{\"a\":1}".to_string(), "second".to_string()]);
    let no_choice = StreamChunk { choices: vec![], usage: None };
    let with_delta = StreamChunk {
        choices: vec![Choice {
            message: None,
            delta: Some(ResponseMessage { content: Some("tok".to_string()), tool_calls: None }),
            finish_reason: None,
        }],
        usage: Some(Usage { prompt_tokens: 1, completion_tokens: 2 }),
    };
    let c = stream_chunk_from_events(&vec![None, Some(no_choice), Some(with_delta)]);
    assert_eq!(c.message.content, Some("tok".to_string()));
    assert_eq!(c.usage.unwrap().completion_tokens, 2);
    let bare = StreamChunk { choices: vec![Choice { message: None, delta: None, finish_reason: Some("length".to_string()) }], usage: None };
    let c = stream_chunk_from_events(&vec![Some(bare)]);
    assert_eq!(c.message.content, Some(String::new()));
    assert_eq!(c.finish_reason, Some("length".to_string()));
    let c = stream_chunk_from_events(&vec![]);
    assert_eq!(c.message.content, Some(String::new()));
    assert_eq!(c.finish_reason, None);
    assert!(c.usage.is_none());
}

#[test]
fn content_parts_join_with_line_feeds() {
    assert_eq!(join_content_parts(&vec![]), None);
    assert_eq!(join_content_parts(&vec!["a".to_string()]), Some("a".to_string()));
    assert_eq!(
        join_content_parts(&vec!["a".to_string(), "".to_string(), "c".to_string()]),
        Some("a\n\nc".to_string())
    );
}

#[test]
fn sse_lines_are_classified() {
    assert!(matches!(classify_sse_line("data: [DONE]"), SseLine::Done));
    match classify_sse_line("data: {}") {
        SseLine::Data(p) => assert_eq!(p, "{}"),
        other => panic!("unexpected {:?}", other),
    }
    match classify_sse_line("data: ") {
        SseLine::Data(p) => assert_eq!(p, ""),
        other => panic!("unexpected {:?}", other),
    }
    assert!(matches!(classify_sse_line("data:[DONE]"), SseLine::Other));
    assert!(matches!(classify_sse_line(": ping"), SseLine::Other));
    match classify_sse_line("data: [DONE] ") {
        SseLine::Data(p) => assert_eq!(p, "[DONE] "),
        other => panic!("unexpected {:?}", other),
    }
}

#[test]
fn lines_split_across_pieces_are_joined() {
    let mut whole = SseLineBuffer::new();
    let all = whole.feed(b"data: one\r\r\ndata: tw");
    assert_eq!(all, vec!["data: one".to_string()]);
    let rest = whole.feed(b"o\n\ndata: th");
    assert_eq!(rest, vec!["data: two".to_string(), String::new()]);
    let mut once = SseLineBuffer::new();
    let lines = once.feed(b"data: one\r\r\ndata: two\n\ndata: th");
    assert_eq!(lines, vec!["data: one".to_string(), "data: two".to_string(), String::new()]);
    assert_eq!(whole.feed(b"ree\n"), once.feed(b"ree\n"));
}

#[test]
fn received_bytes_are_decoded_lossily() {
    assert_eq!(decode_received(b"ok"), "ok");
    assert_eq!(decode_received(&[0x66, 0xff, 0x67]), "f\u{fffd}g");
}

fn mistral_chunk(content: Option<&str>, calls: Vec<MistralToolCall>, finish: Option<&str>, usage: Option<(u32, u32)>) -> StreamEvent {
    StreamEvent::Chunk(mistral::StreamChunk {
        choices: vec![mistral::Choice {
            message: None,
            delta: Some(mistral::ResponseMessage {
                content: content.map(|s| s.to_string()),
                tool_calls: if calls.is_empty() { None } else { Some(calls) },
            }),
            finish_reason: finish.map(|s| s.to_string()),
        }],
        usage: usage.map(|(p, c)| Usage { prompt_tokens: p, completion_tokens: c }),
    })
}

#[test]
fn mistral_stream_pieces_accumulate() {
    let call = MistralToolCall {
        id: Some("c".to_string()),
        type_: None,
        function: MistralFunctionCall { name: String::new(), arguments: "{\"x\"".to_string() },
        index: Some(0),
    };
    let events = vec![
        mistral_chunk(Some("Hel"), vec![], None, None),
        StreamEvent::Ignored,
        mistral_chunk(Some("lo"), vec![call], None, Some((5, 6))),
        StreamEvent::Done,
    ];
    let c = mistral::stream_chunk_from_events(&events);
    assert_eq!(c.message.role, Role::Assistant);
    assert_eq!(c.message.content, Some("Hello".to_string()));
    let calls = c.message.tool_calls.unwrap();
    assert_eq!(calls.len(), 1);
    assert_eq!(calls[0].function.name, None);
    assert_eq!(calls[0].function.arguments, Some("{\"x\"".to_string()));
    assert_eq!(calls[0].call_type, "function");
    assert_eq!(c.finish_reason, Some("stop".to_string()));
    assert_eq!(c.usage.unwrap().prompt_tokens, 5);
}

#[test]
fn mistral_stream_finish_reason_rules() {
    let c = mistral::stream_chunk_from_events(&vec![
        mistral_chunk(None, vec![], Some("tool_calls"), None),
        StreamEvent::Done,
    ]);
    assert_eq!(c.finish_reason, Some("tool_calls".to_string()));
    let c = mistral::stream_chunk_from_events(&vec![
        StreamEvent::Done,
        mistral_chunk(Some(""), vec![], Some("length"), None),
    ]);
    assert_eq!(c.finish_reason, Some("length".to_string()));
    assert_eq!(c.message.content, None);
    assert!(c.message.tool_calls.is_none());
    let c = mistral::stream_chunk_from_events(&vec![]);
    assert_eq!(c.finish_reason, None);
    assert_eq!(c.message.content, None);
}

#[test]
fn mistral_completion_fills_missing_types() {
    let resp = mistral::ChatResponse {
        choices: vec![mistral::Choice {
            message: Some(mistral::ResponseMessage {
                content: None,
                tool_calls: Some(vec![MistralToolCall {
                    id: None,
                    type_: None,
                    function: MistralFunctionCall { name: "grep".to_string(), arguments: String::new() },
                    index: Some(1),
                }]),
            }),
            delta: None,
            finish_reason: None,
        }],
        usage: None,
    };
    let c = mistral::completion_result("m", 200, String::new(), Ok(resp)).unwrap();
    let calls = c.message.tool_calls.unwrap();
    assert_eq!(calls[0].call_type, "function");
    assert_eq!(calls[0].function.name, Some("grep".to_string()));
    assert_eq!(calls[0].function.arguments, Some(String::new()));
    assert!(matches!(
        mistral::completion_result("m", 429, "slow".to_string(), Err(String::new())),
        Err(LlmError::ApiError { status: 429, .. })
    ));
}

#[test]
fn text_feeds_and_payloads_match_the_byte_forms() {
    let mut by_text = SseLineBuffer::new();
    let mut by_bytes = SseLineBuffer::new();
    assert_eq!(by_text.feed_text("data: α\r\ndata: "), by_bytes.feed("data: α\r\ndata: ".as_bytes()));
    assert_eq!(by_text.feed_text("β\n"), vec!["data: β".to_string()]);
    assert_eq!(by_bytes.feed("β\n".as_bytes()), vec!["data: β".to_string()]);
    assert_eq!(payloads_of_text("data: [DONE]\ndata: x\n: ping"), vec!["x".to_string()]);
    assert_eq!(
        payloads_of_received(&[b'd', b'a', b't', b'a', b':', b' ', 0xff]),
        vec!["\u{fffd}".to_string()]
    );
}

fn streamed_text(parts: &[&str]) -> String {
    let bytes: Vec<&[u8]> = parts.iter().map(|p| p.as_bytes()).collect();
    streamed_bytes(&bytes)
}

fn streamed_bytes(parts: &[&[u8]]) -> String {
    let mut buffer = SseLineBuffer::new();
    let mut text = String::new();
    for part in parts {
        let lines = buffer.feed(part);
        let events: Vec<StreamEvent> = lines
            .iter()
            .map(|l| match classify_sse_line(l) {
                SseLine::Data(p) => mistral_chunk(Some(&p), vec![], None, None),
                SseLine::Done => StreamEvent::Done,
                SseLine::Other => StreamEvent::Ignored,
            })
            .collect();
        let chunk = mistral::stream_chunk_from_events(&events);
        text.push_str(&chunk.message.content.unwrap_or_default());
    }
    text
}

#[test]
fn streamed_answer_is_the_same_whatever_the_split() {
    let whole = "data: Hel\r\ndata: lo, \n: ping\ndata: wor\ndata: ld\ndata: [DONE]\n";
    let expected = "Hello, world";
    assert_eq!(streamed_text(&[whole]), expected);
    assert_eq!(streamed_text(&["da", "ta: Hel\r", "\ndata: lo, \n: pi", "ng\ndata: wor\nd", "ata: ld\nda", "ta: [DONE]\n"]), expected);
    let chars: Vec<String> = whole.chars().map(|c| c.to_string()).collect();
    let one_by_one: Vec<&str> = chars.iter().map(|s| s.as_str()).collect();
    assert_eq!(streamed_text(&one_by_one), expected);
}

#[test]
fn streamed_answer_from_bytes_cut_on_character_boundaries() {
    let whole = "data: Grüß \ndata: 😀 ok\n".as_bytes();
    let expected = "Grüß 😀 ok";
    assert_eq!(streamed_bytes(&[whole]), expected);
    let mut cuts: Vec<usize> = (1..whole.len()).filter(|&i| std::str::from_utf8(&whole[..i]).is_ok()).collect();
    cuts.insert(0, 0);
    cuts.push(whole.len());
    let pieces: Vec<&[u8]> = cuts.windows(2).map(|w| &whole[w[0]..w[1]]).collect();
    assert_eq!(streamed_bytes(&pieces), expected);
}
