use revibe::format::ApiToolFormatHandler;
use revibe::types::{FunctionCall, LlmMessage, Role, ToolCall};

fn call(id: Option<&str>, index: Option<usize>, name: Option<&str>, args: Option<&str>) -> ToolCall {
    ToolCall {
        id: id.map(|s| s.to_string()),
        index,
        function: FunctionCall {
            name: name.map(|s| s.to_string()),
            arguments: args.map(|s| s.to_string()),
        },
        call_type: "function".to_string(),
    }
}

#[test]
fn test_merge_tool_call_chunks() {
    let handler = ApiToolFormatHandler::new();

    let chunks = vec![
        ToolCall {
            id: Some("call_1".to_string()),
            index: Some(0),
            function: FunctionCall {
                name: Some("bash".to_string()),
                arguments: Some("{\"com".to_string()),
            },
            call_type: "function".to_string(),
        },
        ToolCall {
            id: None,
            index: Some(0),
            function: FunctionCall {
                name: None,
                arguments: Some("mand\":".to_string()),
            },
            call_type: "function".to_string(),
        },
        ToolCall {
            id: None,
            index: Some(0),
            function: FunctionCall {
                name: None,
                arguments: Some("\"ls\"}".to_string()),
            },
            call_type: "function".to_string(),
        },
    ];

    let merged = handler.merge_tool_call_chunks(&chunks);
    assert_eq!(merged.len(), 1);
    assert_eq!(merged[0].id, Some("call_1".to_string()));
    assert_eq!(merged[0].function.name, Some("bash".to_string()));
    assert_eq!(
        merged[0].function.arguments,
        Some("{\"command\":\"ls\"}".to_string())
    );
}

#[test]
fn merge_orders_slots_by_index() {
    let handler = ApiToolFormatHandler::new();
    let chunks = vec![
        call(Some("b"), Some(2), Some("grep"), Some("x")),
        call(Some("a"), None, Some("bash"), Some("1")),
        call(None, Some(2), None, Some("y")),
        call(None, Some(0), None, Some("2")),
    ];
    let merged = handler.merge_tool_call_chunks(&chunks);
    assert_eq!(merged.len(), 2);
    assert_eq!(merged[0].id, Some("a".to_string()));
    assert_eq!(merged[0].index, None);
    assert_eq!(merged[0].function.arguments, Some("12".to_string()));
    assert_eq!(merged[1].id, Some("b".to_string()));
    assert_eq!(merged[1].function.arguments, Some("xy".to_string()));
}

#[test]
fn merge_takes_the_last_id_and_name() {
    let handler = ApiToolFormatHandler::new();
    let chunks = vec![
        call(None, Some(1), None, None),
        call(Some("first"), Some(1), Some("a"), None),
        call(Some("second"), Some(1), None, Some("z")),
    ];
    let merged = handler.merge_tool_call_chunks(&chunks);
    assert_eq!(merged.len(), 1);
    assert_eq!(merged[0].id, Some("second".to_string()));
    assert_eq!(merged[0].function.name, Some("a".to_string()));
    assert_eq!(merged[0].function.arguments, Some("z".to_string()));
}

#[test]
fn merge_keeps_absent_arguments_absent() {
    let handler = ApiToolFormatHandler::new();
    let merged = handler.merge_tool_call_chunks(&[call(Some("x"), Some(3), Some("n"), None)]);
    assert_eq!(merged.len(), 1);
    assert_eq!(merged[0].function.arguments, None);
    assert!(handler.merge_tool_call_chunks(&[]).is_empty());
}

#[test]
fn merging_merged_calls_changes_nothing() {
    let handler = ApiToolFormatHandler::new();
    let chunks = vec![
        call(Some("a"), Some(1), Some("bash"), Some("{")),
        call(None, Some(0), Some("read"), Some("[")),
        call(None, Some(1), None, Some("}")),
    ];
    let once = handler.merge_tool_call_chunks(&chunks);
    let twice = handler.merge_tool_call_chunks(&once);
    assert_eq!(once, twice);
}

#[test]
fn tool_choice_is_auto_and_messages_pass_through() {
    let handler = ApiToolFormatHandler::new();
    assert_eq!(handler.get_tool_choice(), Some("auto"));
    let m = handler.process_api_response_message(LlmMessage::assistant("hi"));
    assert_eq!(m.role, Role::Assistant);
    assert_eq!(m.content, Some("hi".to_string()));
    assert_eq!(Role::Tool.as_str(), "tool");
    assert_eq!(Role::System.as_str(), "system");
}

#[test]
fn merging_a_prefix_early_changes_nothing() {
    let handler = ApiToolFormatHandler::new();
    let first = vec![
        call(Some("a"), Some(1), Some("bash"), Some("{\"c")),
        call(Some("b"), Some(0), Some("read"), None),
    ];
    let rest = vec![
        call(None, Some(1), None, Some("md\":1}")),
        call(Some("b2"), Some(0), None, Some("[]")),
        call(Some("c"), Some(2), Some("grep"), Some("x")),
    ];
    let mut early = handler.merge_tool_call_chunks(&first);
    early.extend(rest.iter().map(|c| c.duplicate()));
    let mut all: Vec<ToolCall> = first.iter().map(|c| c.duplicate()).collect();
    all.extend(rest.iter().map(|c| c.duplicate()));
    assert_eq!(handler.merge_tool_call_chunks(&early), handler.merge_tool_call_chunks(&all));
}
