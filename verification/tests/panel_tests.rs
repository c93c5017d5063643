use revibe::messages::CompletionSuggestion;
use revibe::modes::AgentMode;
use revibe::panels::{
    approval_args_cuttable, render_approval_dialog, render_completion_popup, render_input_box, render_loading,
    ApprovalArg, ArgValue, Rect,
};
use revibe::style::{Rgb, StyledLine, TextStyle};

fn text(l: &StyledLine) -> String {
    l.spans.iter().map(|s| s.text.as_str()).collect()
}

fn color(l: &StyledLine, i: usize) -> Rgb {
    l.spans[i].style.fg.unwrap()
}

const G: [Rgb; 5] = [
    Rgb { r: 255, g: 216, b: 0 },
    Rgb { r: 255, g: 175, b: 0 },
    Rgb { r: 255, g: 130, b: 5 },
    Rgb { r: 250, g: 80, b: 15 },
    Rgb { r: 225, g: 5, b: 0 },
];

#[test]
fn loading_wave_moves_through_the_text() {
    // status "ab": spinner, a, b, ellipsis, space = 5 positions
    let l = render_loading(3, "ab", "⠋", 0);
    assert_eq!(text(&l), "⠋ ab… (3s esc to interrupt)");
    for i in 0..5 {
        assert_eq!(color(&l, i), G[0]);
    }
    assert_eq!(color(&l, 5), Rgb { r: 128, g: 128, b: 128 });
    let l = render_loading(0, "ab", "⠋", 2);
    assert_eq!(color(&l, 0), G[1]);
    assert_eq!(color(&l, 1), G[1]);
    assert_eq!(color(&l, 2), G[0]);
    // after a full pass the whole line shows the next colour
    let l = render_loading(0, "ab", "⠋", 5);
    for i in 0..5 {
        assert_eq!(color(&l, i), G[1]);
    }
    let l = render_loading(0, "ab", "⠋", 24);
    assert_eq!(color(&l, 0), G[0]);
    assert_eq!(color(&l, 4), G[4]);
}

#[test]
fn input_box_lines() {
    let b = render_input_box("", 0, AgentMode::Plan, false);
    assert_eq!(b.lines.len(), 1);
    assert_eq!(text(&b.lines[0]), "> Ask anything...");
    assert!(b.lines[0].spans[2].style.italic);
    assert_eq!(b.border_color, Rgb { r: 0, g: 175, b: 0 });
    assert_eq!(b.style.fg, Some(Rgb { r: 220, g: 220, b: 220 }));
    let b = render_input_box("one\ntwo", 3, AgentMode::Default, true);
    assert_eq!(b.lines.iter().map(text).collect::<Vec<_>>(), vec!["📝 > one", "  two"]);
    let b = render_input_box("one\ntwo", 3, AgentMode::AutoApprove, false);
    assert_eq!(text(&b.lines[0]), "> one\ntwo");
    assert_eq!(b.border_color, Rgb { r: 255, g: 85, b: 85 });
    let b = render_input_box("", 0, AgentMode::Default, true);
    assert_eq!(text(&b.lines[0]), "📝 > Ask anything...");
}

#[test]
fn approval_dialog_lines() {
    let long = "x".repeat(70);
    let args = vec![
        ApprovalArg { key: "command".to_string(), value: ArgValue::Text(long.clone()) },
        ApprovalArg { key: "timeout".to_string(), value: ArgValue::Json("30".to_string()) },
    ];
    assert!(approval_args_cuttable(&args));
    let lines = render_approval_dialog("bash", &args, 2);
    let t: Vec<String> = lines.iter().map(text).collect();
    assert_eq!(
        t,
        vec![
            "⚠ bash command".to_string(),
            String::new(),
            format!("command: {}...", "x".repeat(57)),
            "timeout: 30".to_string(),
            String::new(),
            "  1. Yes (y)".to_string(),
            "  2. Yes and always allow bash for this session".to_string(),
            "› 3. No and tell the agent what to do instead (n)".to_string(),
            String::new(),
            "↑↓ navigate  Enter select  y/n quick  ESC reject".to_string(),
        ]
    );
    assert_eq!(lines[2].spans[1].style.fg, Some(Rgb { r: 255, g: 175, b: 0 }));
    assert_eq!(lines[3].spans[1].style, TextStyle { fg: None, bg: None, bold: false, italic: false });
    assert!(lines[7].spans[0].style.bold);
    assert_eq!(lines[7].spans[0].style.fg, Some(Rgb { r: 255, g: 85, b: 85 }));
    assert_eq!(lines[5].spans[0].style.fg, Some(Rgb { r: 0, g: 175, b: 0 }));
    // a cut inside a character cannot be made
    let wide = format!("{}é{}", "a".repeat(56), "b".repeat(10));
    assert!(!approval_args_cuttable(&vec![ApprovalArg { key: "path".to_string(), value: ArgValue::Text(wide) }]));
    let exact = "y".repeat(60);
    let lines = render_approval_dialog("t", &vec![ApprovalArg { key: "k".to_string(), value: ArgValue::Text(exact.clone()) }], 0);
    assert_eq!(text(&lines[2]), format!("k: {}", exact));
    assert_eq!(text(&lines[4]), "› 1. Yes (y)");
}

#[test]
fn completion_popup_layout() {
    let area = Rect { x: 0, y: 20, width: 80, height: 3 };
    assert!(render_completion_popup(area, &[], 0).is_none());
    let s = vec![
        CompletionSuggestion { completion: "/help".to_string(), description: "Show help".to_string() },
        CompletionSuggestion { completion: "/quit".to_string(), description: String::new() },
    ];
    let p = render_completion_popup(area, &s, 1).unwrap();
    assert_eq!(p.area, Rect { x: 2, y: 16, width: 18, height: 4 });
    assert_eq!(p.lines.iter().map(text).collect::<Vec<_>>(), vec!["/help  Show help", "/quit"]);
    assert_eq!(p.lines[1].spans[0].style.bg, Some(Rgb { r: 20, g: 20, b: 20 }));
    assert_eq!(p.lines[0].spans[0].style.bg, None);
    let low = Rect { x: 1, y: 2, width: 80, height: 3 };
    let p = render_completion_popup(low, &s, 0).unwrap();
    assert_eq!(p.area.y, 5);
    let many: Vec<CompletionSuggestion> = (0..20)
        .map(|i| CompletionSuggestion { completion: format!("/c{}", i), description: "d".repeat(100) })
        .collect();
    let p = render_completion_popup(area, &many, 0).unwrap();
    assert_eq!(p.area.height, 12);
    assert_eq!(p.area.width, 60);
    assert_eq!(p.area.y, 8);
}

#[test]
fn loading_wave_repeats_after_five_sweeps() {
    // "ab" gives a line of 5 positions, so five sweeps take 25 steps
    for p in [0usize, 3, 7, 24] {
        let a = render_loading(1, "ab", "⠋", p);
        let b = render_loading(1, "ab", "⠋", p + 25);
        assert_eq!(text(&a), text(&b));
        for i in 0..6 {
            assert_eq!(color(&a, i), color(&b, i));
        }
    }
    let a = render_loading(1, "ab", "⠋", 7);
    let c = render_loading(1, "ab", "⠋", 12);
    assert_ne!(color(&a, 0), color(&c, 0));
}

#[test]
fn no_suggestions_no_popup_anywhere() {
    let corner = Rect { x: 65535, y: 0, width: 10, height: 65535 };
    assert!(render_completion_popup(corner, &[], 0).is_none());
    assert!(render_completion_popup(corner, &[], 7).is_none());
}
