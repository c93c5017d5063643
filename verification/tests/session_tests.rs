use revibe::messages::{SystemMessage, SystemMessageKind};
use revibe::commands::{
    conversation_compacted, history_cleared, notice, ChatEdit,
    command_step, error_notice, log_notice, mode_switch_notices, parse_command, reload_notice, session_notice,
    shell_failure_notice, terminal_notice, update_notice, CommandStep, SlashCommand,
    compact_end_message, compact_start_message, log_path_message, resume_hint, session_id_cuttable, session_info,
    shell_outcome, shell_text_outcome, short_session_id, switched_mode_message, terminal_setup_message, unknown_command_message,
};
use revibe::session::{
    initial_token_context, plan_agent_event, task_end_notice, tool_selection, AgentEvent, EventStep,
    approval_outcome, plan_app_action, ActionPlan, AgentTaskState, AppAction, ApprovalResponse, ApprovalWait,
};

#[test]
fn task_state_starts_stops_and_completes() {
    let mut t: AgentTaskState<u32> = AgentTaskState::new();
    assert!(!t.is_running());
    t.start(7);
    assert!(t.is_running());
    assert_eq!(t.stop(), Some(7));
    assert!(!t.is_running());
    assert_eq!(t.stop(), None);
    t.start(8);
    t.complete();
    assert!(!t.is_running());
    assert_eq!(t.stop(), None);
}

#[test]
fn actions_are_planned() {
    assert!(matches!(plan_app_action(AppAction::Exit, true), ActionPlan::StopAndExit));
    assert!(matches!(plan_app_action(AppAction::Continue, false), ActionPlan::Nothing));
    match plan_app_action(AppAction::Submit("hi".to_string()), false) {
        ActionPlan::StartAgent(m) => assert_eq!(m, "hi"),
        other => panic!("unexpected {:?}", other),
    }
    assert!(matches!(plan_app_action(AppAction::Submit("hi".to_string()), true), ActionPlan::Nothing));
    assert!(matches!(plan_app_action(AppAction::Command("/q".to_string()), true), ActionPlan::Nothing));
    match plan_app_action(AppAction::Command("/q".to_string()), false) {
        ActionPlan::RunCommand(c) => assert_eq!(c, "/q"),
        other => panic!("unexpected {:?}", other),
    }
    match plan_app_action(AppAction::Approve(ApprovalResponse::No), true) {
        ActionPlan::Reply { response, feedback } => {
            assert_eq!(response, ApprovalResponse::No);
            assert_eq!(feedback, Some("User rejected the tool execution".to_string()));
        }
        other => panic!("unexpected {:?}", other),
    }
    match plan_app_action(AppAction::Approve(ApprovalResponse::YesAlways), true) {
        ActionPlan::Reply { response, feedback } => {
            assert_eq!(response, ApprovalResponse::YesAlways);
            assert_eq!(feedback, None);
        }
        other => panic!("unexpected {:?}", other),
    }
    assert!(matches!(plan_app_action(AppAction::Interrupt, true), ActionPlan::Interrupt));
    assert!(matches!(plan_app_action(AppAction::CycleMode, true), ActionPlan::CycleMode));
    assert!(matches!(plan_app_action(AppAction::ScrollUp, true), ActionPlan::ScrollUp));
    assert!(matches!(plan_app_action(AppAction::ScrollDown, true), ActionPlan::ScrollDown));
    assert!(matches!(plan_app_action(AppAction::ToggleToolExpand, true), ActionPlan::ToggleToolExpand));
    assert!(matches!(plan_app_action(AppAction::OpenConfig, true), ActionPlan::OpenConfig));
}

#[test]
fn approval_waits_end_in_answers() {
    let (r, m) = approval_outcome(ApprovalWait::Busy);
    assert_eq!((r, m), (ApprovalResponse::No, Some("Approval channel busy".to_string())));
    let (r, m) = approval_outcome(ApprovalWait::Cancelled);
    assert_eq!((r, m), (ApprovalResponse::No, Some("Approval cancelled".to_string())));
    let (r, m) = approval_outcome(ApprovalWait::TimedOut);
    assert_eq!((r, m), (ApprovalResponse::No, Some("Approval timeout - no response received".to_string())));
    let (r, m) = approval_outcome(ApprovalWait::Answered(ApprovalResponse::Yes, None));
    assert_eq!((r, m), (ApprovalResponse::Yes, None));
}

#[test]
fn session_texts() {
    assert_eq!(short_session_id("0123456789abcdef"), "01234567");
    assert_eq!(short_session_id("abc"), "abc");
    assert!(session_id_cuttable("0123456789"));
    assert!(!session_id_cuttable("0123456é89"));
    assert_eq!(
        resume_hint("0123456789"),
        vec![
            String::new(),
            "To continue this session, run: revibe --continue".to_string(),
            "Or: revibe --resume 01234567".to_string(),
        ]
    );
    assert_eq!(
        session_info(Some("0123456789"), "Plan", "/tmp/w"),
        "## Current Session\n\n- **Session ID**: 01234567\n- **Mode**: Plan\n- **Working Directory**: /tmp/w"
    );
    assert_eq!(session_info(None, "Plan", "/"), "No active session");
    assert_eq!(
        log_path_message("/l.json"),
        "## Current Log File Path\n\n`/l.json`\n\nYou can send this file to share your interaction."
    );
    assert_eq!(
        compact_start_message(205_000, 200_000),
        "Compacting conversation (205k tokens > 200k threshold)..."
    );
    assert_eq!(compact_end_message(205_999, 31_000), "Compacted: 205k → 31k tokens");
    assert_eq!(unknown_command_message("/x"), "Unknown command: /x. Type /help for available commands.");
    assert_eq!(switched_mode_message("Plan"), "Switched to Plan mode");
    assert!(terminal_setup_message("iTerm.app").starts_with("## iTerm2 Setup"));
    assert!(terminal_setup_message("Apple_Terminal").starts_with("## Terminal.app Setup"));
    assert!(terminal_setup_message("").starts_with("## Terminal Setup"));
}

#[test]
fn shell_results() {
    assert_eq!(shell_outcome(b"out", b"err", Some(0)), ("out".to_string(), 0));
    assert_eq!(shell_outcome(b"", b"err", Some(2)), ("err".to_string(), 2));
    assert_eq!(shell_outcome(b"", b"", None), ("(no output)".to_string(), -1));
    assert_eq!(shell_outcome(&[0xff], b"", Some(1)), ("\u{fffd}".to_string(), 1));
}

#[test]
fn shell_outcome_from_decoded_texts() {
    assert_eq!(shell_text_outcome(String::new(), "boom".to_string(), Some(2)), ("boom".to_string(), 2));
    assert_eq!(shell_text_outcome("out".to_string(), "err".to_string(), None), ("out".to_string(), -1));
    assert_eq!(shell_text_outcome(String::new(), String::new(), Some(0)), ("(no output)".to_string(), 0));
    assert_eq!(shell_outcome(&[0xff], b"", Some(1)), ("\u{fffd}".to_string(), 1));
}

fn is(m: &SystemMessage, text: &str, kind: SystemMessageKind) -> bool {
    m.content == text && m.kind == kind
}

#[test]
fn command_lines_become_steps() {
    match command_step(parse_command("/Quit")) {
        CommandStep::Leave(m) => assert!(is(&m, "Bye!", SystemMessageKind::Info)),
        s => panic!("unexpected {:?}", s),
    }
    match command_step(parse_command("/reset")) {
        CommandStep::ClearHistory(m) => {
            assert!(is(&m, "Conversation reset. All history cleared.", SystemMessageKind::Info))
        }
        s => panic!("unexpected {:?}", s),
    }
    match command_step(parse_command("/clear")) {
        CommandStep::ClearHistory(m) => assert!(is(&m, "Conversation cleared.", SystemMessageKind::Info)),
        s => panic!("unexpected {:?}", s),
    }
    match command_step(parse_command("/compact")) {
        CommandStep::Compact(a, b) => {
            assert!(is(&a, "Compacting conversation...", SystemMessageKind::Info));
            assert!(is(&b, "Compacted.", SystemMessageKind::Info));
        }
        s => panic!("unexpected {:?}", s),
    }
    match command_step(parse_command("  !  ")) {
        CommandStep::Notify(m) => assert!(is(&m, "No command provided after '!'", SystemMessageKind::Error)),
        s => panic!("unexpected {:?}", s),
    }
    match command_step(parse_command("!ls -la")) {
        CommandStep::RunShell(c) => assert_eq!(c, "ls -la"),
        s => panic!("unexpected {:?}", s),
    }
    match command_step(parse_command("/Frobnicate x")) {
        CommandStep::Notify(m) => assert!(is(
            &m,
            "Unknown command: /frobnicate. Type /help for available commands.",
            SystemMessageKind::Warning
        )),
        s => panic!("unexpected {:?}", s),
    }
    assert!(matches!(command_step(parse_command("   ")), CommandStep::Nothing));
    assert!(matches!(command_step(parse_command("/theme")), CommandStep::OpenConfig));
    assert!(matches!(command_step(parse_command("/status")), CommandStep::ShowStats));
    assert!(matches!(command_step(parse_command("/?")), CommandStep::ShowHelp));
    assert!(matches!(command_step(parse_command("/log")), CommandStep::ShowLogPath));
    assert!(matches!(command_step(parse_command("/terminal-setup")), CommandStep::ShowTerminalSetup));
    assert!(matches!(command_step(parse_command("/reload")), CommandStep::ReloadConfig));
    assert!(matches!(command_step(parse_command("/session")), CommandStep::ShowSession));
    assert!(matches!(command_step(parse_command("/update")), CommandStep::CheckUpdates));
    assert!(matches!(command_step(SlashCommand::Blank), CommandStep::Nothing));
}

#[test]
fn notices_after_outside_work() {
    assert!(is(
        &log_notice(Some("/tmp/s.log")),
        "## Current Log File Path\n\n`/tmp/s.log`\n\nYou can send this file to share your interaction.",
        SystemMessageKind::Info
    ));
    assert!(is(
        &log_notice(None),
        "Session logging is disabled or no log file created yet.",
        SystemMessageKind::Warning
    ));
    assert!(is(&reload_notice(None), "Configuration reloaded successfully.", SystemMessageKind::Info));
    assert!(is(&reload_notice(Some("bad toml")), "Failed to reload configuration: bad toml", SystemMessageKind::Error));
    assert!(is(&update_notice(None), "Checked for updates. No new version available.", SystemMessageKind::Info));
    assert!(is(&update_notice(Some("offline")), "Failed to check for updates: offline", SystemMessageKind::Error));
    assert!(is(&shell_failure_notice("no sh"), "Command failed: no sh", SystemMessageKind::Error));
    assert!(is(&error_notice("boom"), "Error: boom", SystemMessageKind::Error));
    assert_eq!(terminal_notice("Apple_Terminal").kind, SystemMessageKind::Info);
    assert!(terminal_notice("").content.starts_with("## Terminal Setup"));
    assert!(is(
        &session_notice(Some("0123456789abcdef"), "Plan", "/w"),
        "## Current Session\n\n- **Session ID**: 01234567\n- **Mode**: Plan\n- **Working Directory**: /w",
        SystemMessageKind::Info
    ));
    assert!(is(&session_notice(None, "Plan", "/w"), "No active session", SystemMessageKind::Info));
    let v = mode_switch_notices("Plan", None);
    assert_eq!(v.len(), 1);
    assert!(is(&v[0], "Switched to Plan mode", SystemMessageKind::Info));
    let v = mode_switch_notices("Plan", Some("Agent is unavailable"));
    assert_eq!(v.len(), 2);
    assert!(is(&v[0], "Failed to update mode: Agent is unavailable", SystemMessageKind::Error));
    assert!(is(&v[1], "Switched to Plan mode", SystemMessageKind::Info));
}

#[test]
fn agent_events_become_steps() {
    let e: AgentEvent<u8, &str> = AgentEvent::Assistant { content: String::new() };
    assert!(matches!(plan_agent_event(e), EventStep::Nothing));
    let e: AgentEvent<u8, &str> = AgentEvent::Assistant { content: "hi".to_string() };
    assert!(matches!(plan_agent_event(e), EventStep::ExtendAssistant(t) if t == "hi"));
    let e: AgentEvent<u8, &str> = AgentEvent::ToolCall { tool_name: "bash".to_string(), args: 7 };
    assert!(matches!(plan_agent_event(e), EventStep::ShowToolCall { tool_name, args: 7 } if tool_name == "bash"));
    let e: AgentEvent<u8, &str> = AgentEvent::ToolResult("done");
    assert!(matches!(plan_agent_event(e), EventStep::ShowToolResult("done")));
    let e: AgentEvent<u8, &str> = AgentEvent::CompactStart { current_context_tokens: 95_500, threshold: 90_000 };
    match plan_agent_event(e) {
        EventStep::Notify(m) => assert!(is(
            &m,
            "Compacting conversation (95k tokens > 90k threshold)...",
            SystemMessageKind::Info
        )),
        s => panic!("unexpected {:?}", s),
    }
    let e: AgentEvent<u8, &str> = AgentEvent::CompactEnd { old_context_tokens: 95_500, new_context_tokens: 12_345 };
    match plan_agent_event(e) {
        EventStep::NotifyAndSetContext(m, n) => {
            assert!(is(&m, "Compacted: 95k → 12k tokens", SystemMessageKind::Info));
            assert_eq!(n, 12_345);
        }
        s => panic!("unexpected {:?}", s),
    }
}

#[test]
fn session_start_and_end() {
    assert!(task_end_notice(Ok(())).is_none());
    let m = task_end_notice(Err("rate limited".to_string())).unwrap();
    assert!(is(&m, "Error: rate limited", SystemMessageKind::Error));
    let names = |v: &[&str]| v.iter().map(|s| s.to_string()).collect::<Vec<String>>();
    let (en, dis) = tool_selection(names(&["bash"]), names(&["grep", "read"]), names(&["write"]));
    assert_eq!(en, names(&["bash"]));
    assert!(dis.is_empty());
    let (en, dis) = tool_selection(vec![], names(&["grep"]), names(&["write"]));
    assert_eq!(en, names(&["grep"]));
    assert_eq!(dis, names(&["write"]));
    assert_eq!(initial_token_context(100_000), Some((0, 100_000)));
    assert_eq!(initial_token_context(0), None);
}

#[test]
fn clearing_and_compacting_change_the_chat_only_on_success() {
    let note = || notice("Conversation cleared.".to_string(), SystemMessageKind::Info);
    match history_cleared(note(), Ok(())) {
        Ok(v) => {
            assert_eq!(v.len(), 2);
            assert!(matches!(v[0], ChatEdit::ClearMessages));
            assert!(matches!(&v[1], ChatEdit::Show(m) if is(m, "Conversation cleared.", SystemMessageKind::Info)));
        }
        Err(e) => panic!("unexpected {e}"),
    }
    assert_eq!(history_cleared(note(), Err("disk full".to_string())).unwrap_err(), "disk full");
    let done = notice("Compacted.".to_string(), SystemMessageKind::Info);
    let v = conversation_compacted(done, Ok(())).unwrap();
    assert_eq!(v.len(), 1);
    assert!(matches!(&v[0], ChatEdit::Show(m) if m.content == "Compacted."));
    let done = notice("Compacted.".to_string(), SystemMessageKind::Info);
    assert_eq!(conversation_compacted(done, Err("timeout".to_string())).unwrap_err(), "timeout");
}
