use revibe::text::{chars_of, lines_of, same_text, spaces, string_of};
use revibe::commands::{command_for_word, parse_command, trimmed, SlashCommand};

#[test]
fn lines_match_str_lines() {
    let samples = [
        "", "a", "a\n", "a\nb", "a\r\nb\r\n", "a\rb", "x\r", "\n\n", "\r\n", "one\n\ntwo\r\r\n", "é😀\nß",
    ];
    for s in samples {
        let ours = lines_of(s);
        let std: Vec<String> = s.lines().map(|l| l.to_string()).collect();
        assert_eq!(ours, std, "lines of {:?}", s);
    }
}

#[test]
fn chars_strings_and_spaces() {
    let cs = chars_of("héllo");
    assert_eq!(cs, vec!['h', 'é', 'l', 'l', 'o']);
    assert_eq!(string_of(&cs), "héllo");
    assert_eq!(spaces(3), "   ");
    assert_eq!(spaces(0), "");
    assert!(same_text("abc", "abc"));
    assert!(!same_text("abc", "abd"));
    assert!(!same_text("abc", "ab"));
}

#[test]
fn trim_matches_str_trim() {
    let samples = ["", "  x  ", "\t\u{3000}y\u{2028}", "no-space", " \n "];
    for s in samples {
        let t: String = trimmed(s).into_iter().collect();
        assert_eq!(t, s.trim(), "trim of {:?}", s);
    }
}

#[test]
fn commands_are_recognised_case_insensitively() {
    assert!(matches!(parse_command("  /QUIT  "), SlashCommand::Quit));
    assert!(matches!(parse_command("/exit"), SlashCommand::Quit));
    assert!(matches!(parse_command("/q now"), SlashCommand::Quit));
    assert!(matches!(parse_command("/clear"), SlashCommand::Clear));
    assert!(matches!(parse_command("/Reset"), SlashCommand::Reset));
    assert!(matches!(parse_command("/compact"), SlashCommand::Compact));
    assert!(matches!(parse_command("/?"), SlashCommand::Help));
    assert!(matches!(parse_command("/help"), SlashCommand::Help));
    assert!(matches!(parse_command("/status"), SlashCommand::Stats));
    assert!(matches!(parse_command("/stats"), SlashCommand::Stats));
    assert!(matches!(parse_command("/log"), SlashCommand::Log));
    assert!(matches!(parse_command("/terminal-setup"), SlashCommand::TerminalSetup));
    assert!(matches!(parse_command("/theme"), SlashCommand::Config));
    assert!(matches!(parse_command("/model x"), SlashCommand::Config));
    assert!(matches!(parse_command("/reload"), SlashCommand::Reload));
    assert!(matches!(parse_command("/session"), SlashCommand::Session));
    assert!(matches!(parse_command("/update"), SlashCommand::Update));
    assert!(matches!(parse_command("   "), SlashCommand::Blank));
    match parse_command("/Frobnicate now") {
        SlashCommand::Unknown(w) => assert_eq!(w, "/frobnicate"),
        other => panic!("unexpected {:?}", other),
    }
}

#[test]
fn shell_commands_keep_their_text() {
    match parse_command("  !git status ") {
        SlashCommand::Shell(c) => assert_eq!(c, "git status"),
        other => panic!("unexpected {:?}", other),
    }
    match parse_command("! ls") {
        SlashCommand::Shell(c) => assert_eq!(c, " ls"),
        other => panic!("unexpected {:?}", other),
    }
    assert!(matches!(parse_command(" ! "), SlashCommand::EmptyShell));
}

#[test]
fn lowered_words_name_commands() {
    assert!(matches!(command_for_word("/quit".to_string()), SlashCommand::Quit));
    assert!(matches!(command_for_word("/status".to_string()), SlashCommand::Stats));
    assert!(matches!(command_for_word("/model".to_string()), SlashCommand::Config));
    match command_for_word("/QUIT".to_string()) {
        SlashCommand::Unknown(w) => assert_eq!(w, "/QUIT"),
        _ => panic!("an upper-case word is not lowered here"),
    }
    assert!(matches!(parse_command("  /QUIT now"), SlashCommand::Quit));
}
