use revibe::markdown::{build_text_style, render_markdown, render_markdown_events, MdEvent};
use revibe::messages::{
    AssistantMessage, BashOutputMessage, CompactMessage, ErrorMessage, SystemMessage, SystemMessageKind,
    ToolCallMessage, ToolResultMessage, UserCommandMessage, UserMessage, WarningMessage,
};
use revibe::modes::{mode_border_color, mode_icon, AgentMode, ModeIndicator, ModeSafety};
use revibe::style::{self, Rgb, StyledLine, TextStyle};
use revibe::widgets::{
    render_assistant_message, render_bash_output, render_compact, render_error_message, render_interrupt,
    render_system_message, render_tool_call, render_tool_result, render_user_command_message,
    render_user_message, render_warning_message,
};

fn text(l: &StyledLine) -> String {
    l.spans.iter().map(|s| s.text.as_str()).collect()
}

fn texts(ls: &[StyledLine]) -> Vec<String> {
    ls.iter().map(text).collect()
}

fn fg(r: u8, g: u8, b: u8) -> TextStyle {
    TextStyle { fg: Some(Rgb { r, g, b }), bg: None, bold: false, italic: false }
}

const PLAIN: TextStyle = TextStyle { fg: None, bg: None, bold: false, italic: false };

#[test]
fn markdown_renders_blocks_and_inlines() {
    let md = "# Title\n\nSome **bold** and *it* text.\n\n- a\n- b\n\n```\ncode1\ncode2\n```\n\n---\n\n> quote\n\n`x` [link](u)";
    let lines = render_markdown(md);
    assert_eq!(
        texts(&lines),
        vec![
            "Title".to_string(),
            String::new(),
            "Some bold and it text.".to_string(),
            "• a".to_string(),
            "• b".to_string(),
            "code1".to_string(),
            "code2".to_string(),
            "─".repeat(32),
            "│ quote".to_string(),
            "`x` [link]".to_string(),
        ]
    );
    assert_eq!(lines[0].spans[0].style, TextStyle { bold: true, ..fg(255, 175, 0) });
    let para = &lines[2];
    assert_eq!(para.spans[1].text, "bold");
    assert!(para.spans[1].style.bold);
    assert_eq!(para.spans[3].text, "it");
    assert!(para.spans[3].style.italic && !para.spans[3].style.bold);
    assert_eq!(lines[3].spans[0].style, fg(255, 175, 0));
    assert_eq!(lines[5].spans[0].style, TextStyle { bg: Some(Rgb { r: 38, g: 38, b: 38 }), ..fg(220, 220, 220) });
}

#[test]
fn markdown_nested_lists_indent_and_headings_style() {
    let events = vec![
        MdEvent::StartList,
        MdEvent::StartItem,
        MdEvent::Text("outer".to_string()),
        MdEvent::StartList,
        MdEvent::StartItem,
        MdEvent::Text("inner".to_string()),
        MdEvent::EndItem,
        MdEvent::EndList,
        MdEvent::EndItem,
        MdEvent::EndList,
        MdEvent::StartHeading(2),
        MdEvent::Text("H".to_string()),
        MdEvent::SoftBreak,
        MdEvent::HardBreak,
        MdEvent::Text("tail".to_string()),
    ];
    let lines = render_markdown_events(&events);
    assert_eq!(texts(&lines), vec!["• outer", "  • inner", "H ", "tail"]);
    assert_eq!(lines[2].spans[0].style, TextStyle { bold: true, ..fg(100, 180, 255) });
    assert_eq!(build_text_style(false, false, Some(3)), TextStyle { bold: true, ..fg(0, 175, 0) });
    assert_eq!(build_text_style(false, true, Some(5)), TextStyle { bold: true, ..PLAIN });
    assert_eq!(build_text_style(true, true, Some(9)), PLAIN);
    assert_eq!(build_text_style(true, true, None), TextStyle { bold: true, italic: true, ..PLAIN });
}

#[test]
fn user_message_fills_the_width() {
    let lines = render_user_message(&UserMessage { content: "hé".to_string(), pending: false }, 10);
    assert_eq!(texts(&lines), vec!["".to_string(), " ".repeat(10), format!("> hé{}", " ".repeat(5)), " ".repeat(10)]);
    assert_eq!(lines[1].style.bg, Some(Rgb { r: 38, g: 38, b: 38 }));
    assert!(lines[2].spans[1].style.bold);
    let pending = render_user_message(&UserMessage { content: "long text".to_string(), pending: true }, 4);
    assert_eq!(text(&pending[2]), "> long text");
    assert!(pending[2].spans[1].style.italic);
}

#[test]
fn assistant_message_gets_a_bullet() {
    let lines = render_assistant_message(&AssistantMessage { content: String::new() });
    assert_eq!(texts(&lines), vec!["", "● "]);
    let lines = render_assistant_message(&AssistantMessage { content: "one\n\ntwo".to_string() });
    assert_eq!(texts(&lines), vec!["", "● one", "  two"]);
}

#[test]
fn tool_calls_spin_then_check() {
    let msg = ToolCallMessage { summary: "bash ls".to_string(), spinning: true };
    let frames: Vec<String> = (0..5).map(|i| text(&render_tool_call(&msg, i)[1])).collect();
    assert_eq!(frames, vec!["| bash ls", "/ bash ls", "- bash ls", "\\ bash ls", "| bash ls"]);
    let done = ToolCallMessage { summary: "bash ls".to_string(), spinning: false };
    let lines = render_tool_call(&done, 0);
    assert_eq!(texts(&lines), vec!["", "✓ bash ls"]);
    assert_eq!(lines[1].spans[0].style, fg(0, 175, 0));
}

#[test]
fn results_are_framed() {
    let ok = ToolResultMessage { summary: "a\nb\nc".to_string(), error: None, skipped: false };
    assert_eq!(texts(&render_tool_result(&ok)), vec!["  ⎢ a", "  ⎢ b", "  ⎣ c"]);
    let empty = ToolResultMessage { summary: String::new(), error: Some("e".to_string()), skipped: false };
    let lines = render_tool_result(&empty);
    assert_eq!(texts(&lines), vec!["  ⎣ "]);
    assert_eq!(lines[0].spans[1].style, fg(255, 85, 85));
    let skipped = ToolResultMessage { summary: "s".to_string(), error: None, skipped: true };
    assert_eq!(render_tool_result(&skipped)[0].spans[1].style, fg(255, 175, 0));

    let sys = render_system_message(&SystemMessage { content: "x\ny".to_string(), kind: SystemMessageKind::Error });
    assert_eq!(texts(&sys), vec!["", "  ⎢ x", "  ⎣ y"]);
    assert_eq!(sys[1].spans[1].style, fg(255, 85, 85));
    assert_eq!(texts(&render_system_message(&SystemMessage { content: String::new(), kind: SystemMessageKind::Info })), vec![""]);
    assert_eq!(texts(&render_user_command_message(&UserCommandMessage { content: "/help".to_string() })), vec!["  ⎣ /help"]);
    let err = render_error_message(&ErrorMessage { content: String::new() });
    assert_eq!(texts(&err), vec!["  ⎣ "]);
    assert!(err[0].spans[1].style.bold);
    assert!(render_warning_message(&WarningMessage { content: String::new() }).is_empty());
    assert_eq!(texts(&render_warning_message(&WarningMessage { content: "w".to_string() })), vec!["  ⎣ w"]);
    assert_eq!(texts(&render_interrupt()), vec!["  ⎣ Interrupted · What would you like Revibe to do instead?"]);
}

#[test]
fn bash_output_panel() {
    let msg = BashOutputMessage {
        cwd: "/w".to_string(),
        command: "ls".to_string(),
        output: "a\nb".to_string(),
        exit_code: 0,
    };
    let lines = render_bash_output(&msg, 12);
    assert_eq!(
        texts(&lines),
        vec![
            "".to_string(),
            " ".repeat(12),
            format!("  /w ✓{}", " ".repeat(6)),
            format!("  > ls{}", " ".repeat(6)),
            " ".repeat(12),
            format!("  a{}", " ".repeat(9)),
            format!("  b{}", " ".repeat(9)),
            " ".repeat(12),
        ]
    );
    let failed = BashOutputMessage { exit_code: -3, ..msg };
    assert_eq!(text(&render_bash_output(&failed, 4)[2]), "  /w ✗ (-3)  ");
}

#[test]
fn compaction_entries() {
    let running = CompactMessage { in_progress: true, error: None, old_tokens: None, new_tokens: None };
    let lines = render_compact(&running, "⠋", 7);
    assert_eq!(texts(&lines), vec!["", "⠋ Compacting conversation history..."]);
    assert_eq!(lines[1].spans[0].style, fg(255, 130, 5));
    let failed = CompactMessage { in_progress: false, error: Some("no".to_string()), old_tokens: None, new_tokens: None };
    assert_eq!(text(&render_compact(&failed, "x", 0)[1]), "✗ Error: no");
    let done = CompactMessage { in_progress: false, error: None, old_tokens: Some(123_456), new_tokens: Some(999) };
    assert_eq!(text(&render_compact(&done, "x", 0)[1]), "✓ Compacted: 123k → 0k tokens");
}

#[test]
fn modes_and_indicator() {
    assert_eq!(mode_border_color(&AgentMode::Default), Rgb { r: 128, g: 128, b: 128 });
    assert_eq!(mode_border_color(&AgentMode::Plan), Rgb { r: 0, g: 175, b: 0 });
    assert_eq!(mode_border_color(&AgentMode::AcceptEdits), Rgb { r: 255, g: 175, b: 0 });
    assert_eq!(mode_border_color(&AgentMode::AutoApprove), Rgb { r: 255, g: 85, b: 85 });
    assert_eq!(AgentMode::Plan.safety(), ModeSafety::Safe);
    assert_eq!(mode_icon(AgentMode::AutoApprove), "⏵⏵⏵");
    let mut ind = ModeIndicator::new(AgentMode::Default);
    ind.set_mode(AgentMode::AcceptEdits);
    let l = ind.render("Accept Edits");
    assert_eq!(text(&l), "⏵⏵ accept edits mode (shift+tab to cycle)");
    assert_eq!(l.spans[0].style, fg(255, 175, 0));
}

#[test]
fn dialog_styles() {
    assert_eq!(style::dialog_bg().bg, Some(Rgb { r: 30, g: 30, b: 30 }));
    assert_eq!(style::dialog_text(), fg(220, 220, 220));
    assert_eq!(style::path_text(), fg(255, 175, 0));
    assert_eq!(style::option_text(), fg(200, 200, 200));
    assert_eq!(style::selected_option(), TextStyle { bold: true, ..fg(255, 175, 0) });
    assert_eq!(style::help_text(), fg(100, 100, 100));
    assert_eq!(style::save_info_text(), fg(100, 180, 255));
}

#[test]
fn mode_indicator_with_a_lowered_name() {
    let ind = ModeIndicator::new(AgentMode::Plan);
    let l = ind.render_named("plan");
    assert_eq!(text(&l), "⏸︎ plan mode (shift+tab to cycle)");
    assert_eq!(text(&ind.render("PLAN")), text(&l));
    let kept = ind.render_named("Plan");
    assert_eq!(text(&kept), "⏸︎ Plan mode (shift+tab to cycle)");
}

#[test]
fn bash_output_panel_is_padded_to_the_width() {
    let msg = BashOutputMessage {
        cwd: "/home/me".to_string(),
        command: "echo é".to_string(),
        output: "first\r\nsecond line\nthis line is far too long for the panel\n".to_string(),
        exit_code: 2,
    };
    let lines = render_bash_output(&msg, 24);
    let t = texts(&lines);
    assert_eq!(t.len(), 3 + 6);
    for i in [1, 2, 4, 5, 6, 8] {
        assert_eq!(t[i].chars().count(), 24, "line {i}: {:?}", t[i]);
    }
    // the command and output texts are measured in bytes
    assert_eq!(t[3].len(), 24);
    // too long to fit: the padding shrinks to its two closing columns
    assert_eq!(t[7], format!("  {}  ", "this line is far too long for the panel"));
    assert_eq!(t[2], format!("  /home/me ✗ (2){}", " ".repeat(8)));
}

#[test]
fn bash_output_status_line_fills_the_width_for_any_exit_code() {
    for code in [0, 1, 42, 127, 255, -1, -15, i32::MIN] {
        let msg = BashOutputMessage {
            cwd: String::new(),
            command: String::new(),
            output: String::new(),
            exit_code: code,
        };
        let t = texts(&render_bash_output(&msg, 30));
        for (i, line) in t.iter().enumerate().skip(1) {
            assert_eq!(line.chars().count(), 30, "code {code}, line {i}: {line:?}");
        }
    }
}
