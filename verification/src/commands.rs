//! Decisions of the interactive session: slash commands, user actions, the
//! agent task's state, and the texts the session shows.
use vstd::prelude::*;
use vstd::utf8::{decode_utf8, encode_utf8, is_char_boundary};
use crate::backend::factory::{lowercase, to_lowercase};
use crate::backend::sse::{text_from_bytes_lossy, utf8_lossy};
use crate::widgets::byte_len;
use crate::messages::{SystemMessage, SystemMessageKind};
use crate::text::{append_str, chars_of, push_decimal, same_text, string_of, decimal};

verus! {

// ---------------------------------------------------------------- whitespace

/// A white-space character, as `char::is_whitespace` defines it (the Unicode
/// `White_Space` property).
pub open spec fn is_ws(c: char) -> bool {
    let u = c as u32;
    (0x9 <= u <= 0xd) || u == 0x20 || u == 0x85 || u == 0xa0 || u == 0x1680 || (0x2000 <= u <= 0x200a)
        || u == 0x2028 || u == 0x2029 || u == 0x202f || u == 0x205f || u == 0x3000
}

fn char_is_ws(c: char) -> (r: bool)
    ensures
        r == is_ws(c),
{
    let u = c as u32;
    (0x9 <= u && u <= 0xd) || u == 0x20 || u == 0x85 || u == 0xa0 || u == 0x1680 || (0x2000 <= u && u <= 0x200a)
        || u == 0x2028 || u == 0x2029 || u == 0x202f || u == 0x205f || u == 0x3000
}

/// The number of white-space characters at the start of `s`.
pub open spec fn leading_ws(s: Seq<char>) -> nat
    decreases s.len(),
{
    if s.len() > 0 && is_ws(s[0]) {
        1 + leading_ws(s.drop_first())
    } else {
        0
    }
}

/// `s` without white space at its start.
pub open spec fn trim_start(s: Seq<char>) -> Seq<char>
    decreases s.len(),
{
    if s.len() > 0 && is_ws(s[0]) {
        trim_start(s.drop_first())
    } else {
        s
    }
}

/// `s` without white space at its end.
pub open spec fn trim_end(s: Seq<char>) -> Seq<char>
    decreases s.len(),
{
    if s.len() > 0 && is_ws(s.last()) {
        trim_end(s.drop_last())
    } else {
        s
    }
}

/// `s` without white space at either end (`str::trim`).
pub open spec fn trim(s: Seq<char>) -> Seq<char> {
    trim_end(trim_start(s))
}

/// The first word of `s`: the characters up to the first white space.
pub open spec fn word_prefix(s: Seq<char>) -> Seq<char>
    decreases s.len(),
{
    if s.len() == 0 || is_ws(s[0]) {
        Seq::empty()
    } else {
        seq![s[0]] + word_prefix(s.drop_first())
    }
}

/// The first white-space-separated word of `s`, if it has one
/// (`s.split_whitespace().next()`).
pub open spec fn first_word(s: Seq<char>) -> Option<Seq<char>> {
    let rest = trim_start(s);
    if rest.len() == 0 {
        None
    } else {
        Some(word_prefix(rest))
    }
}

fn trim_start_vec(cs: &Vec<char>, from: usize) -> (start: usize)
    requires
        from <= cs.len(),
    ensures
        from <= start <= cs.len(),
        cs@.subrange(start as int, cs.len() as int) == trim_start(cs@.subrange(from as int, cs.len() as int)),
{
    let mut i = from;
    while i < cs.len() && char_is_ws(cs[i])
        invariant
            from <= i <= cs.len(),
            trim_start(cs@.subrange(i as int, cs.len() as int)) == trim_start(
                cs@.subrange(from as int, cs.len() as int),
            ),
        decreases cs.len() - i,
    {
        assert(cs@.subrange(i as int, cs.len() as int).drop_first() =~= cs@.subrange(i + 1, cs.len() as int));
        i = i + 1;
    }
    i
}

/// `str::trim`.
pub fn trimmed(s: &str) -> (r: Vec<char>)
    ensures
        r@ == trim(s@),
{
    let cs = chars_of(s);
    let start = trim_start_vec(&cs, 0);
    assert(cs@.subrange(0, cs.len() as int) =~= s@);
    let mut end = cs.len();
    while end > start && char_is_ws(cs[end - 1])
        invariant
            start <= end <= cs.len(),
            cs@ == s@,
            cs@.subrange(start as int, cs.len() as int) == trim_start(s@),
            trim_end(cs@.subrange(start as int, end as int)) == trim(s@),
        decreases end,
    {
        assert(cs@.subrange(start as int, end as int).drop_last() =~= cs@.subrange(start as int, end - 1));
        end = end - 1;
    }
    let mut out: Vec<char> = Vec::new();
    let mut k = start;
    while k < end
        invariant
            start <= k <= end <= cs.len(),
            out@ == cs@.subrange(start as int, k as int),
        decreases end - k,
    {
        out.push(cs[k]);
        assert(cs@.subrange(start as int, k + 1) =~= cs@.subrange(start as int, k as int).push(cs@[k as int]));
        k = k + 1;
    }
    assert(end == start || !is_ws(cs@[end - 1]));
    assert(trim_end(cs@.subrange(start as int, end as int)) == cs@.subrange(start as int, end as int));
    out
}

// ---------------------------------------------------------------- slash commands

/// What the user asked for with a line that is a command.
#[derive(Debug)]
pub enum SlashCommand {
    /// `!` followed by a shell command.
    Shell(String),
    /// `!` alone.
    EmptyShell,
    Quit,
    Clear,
    Reset,
    Compact,
    Help,
    Stats,
    Log,
    TerminalSetup,
    Config,
    Reload,
    Session,
    Update,
    /// Another word, lower-cased.
    Unknown(String),
    /// Nothing but white space.
    Blank,
}

/// The command a lower-cased word names, as a number: 1 quit, 2 clear, 3
/// reset, 4 compact, 5 help, 6 stats, 7 log, 8 terminal setup, 9 config, 10
/// reload, 11 session, 12 update, 0 none.
pub open spec fn command_code(w: Seq<char>) -> int {
    if w == "/quit"@ || w == "/exit"@ || w == "/q"@ { 1 }
    else if w == "/clear"@ { 2 }
    else if w == "/reset"@ { 3 }
    else if w == "/compact"@ { 4 }
    else if w == "/help"@ || w == "/?"@ { 5 }
    else if w == "/stats"@ || w == "/status"@ { 6 }
    else if w == "/log"@ { 7 }
    else if w == "/terminal-setup"@ { 8 }
    else if w == "/config"@ || w == "/theme"@ || w == "/model"@ { 9 }
    else if w == "/reload"@ { 10 }
    else if w == "/session"@ { 11 }
    else if w == "/update"@ { 12 }
    else { 0 }
}

/// The command of a code.
pub open spec fn command_of_code(code: int, c: SlashCommand) -> bool {
    if code == 1 { c is Quit }
    else if code == 2 { c is Clear }
    else if code == 3 { c is Reset }
    else if code == 4 { c is Compact }
    else if code == 5 { c is Help }
    else if code == 6 { c is Stats }
    else if code == 7 { c is Log }
    else if code == 8 { c is TerminalSetup }
    else if code == 9 { c is Config }
    else if code == 10 { c is Reload }
    else if code == 11 { c is Session }
    else { c is Update }
}

/// What a command line asks for. The line is trimmed; a leading `!` makes the
/// rest a shell command (which must not be empty); otherwise the first word,
/// lower-cased, names the command.
pub open spec fn parsed_command(line: Seq<char>, c: SlashCommand) -> bool {
    let t = trim(line);
    if t.len() > 0 && t[0] == '!' {
        if t.len() == 1 {
            c is EmptyShell
        } else {
            c matches SlashCommand::Shell(s) && s@ == t.drop_first()
        }
    } else {
        match first_word(t) {
            None => c is Blank,
            Some(w) => {
                let lw = lowercase(w);
                if command_code(lw) == 0 {
                    c matches SlashCommand::Unknown(u) && u@ == lw
                } else {
                    command_of_code(command_code(lw), c)
                }
            },
        }
    }
}

fn command_named(w: &str) -> (r: Option<SlashCommand>)
    ensures
        command_code(w@) == 0 ==> r is None,
        command_code(w@) != 0 ==> (r matches Some(c) && command_of_code(command_code(w@), c)),
{
    if same_text(w, "/quit") || same_text(w, "/exit") || same_text(w, "/q") {
        Some(SlashCommand::Quit)
    } else if same_text(w, "/clear") {
        Some(SlashCommand::Clear)
    } else if same_text(w, "/reset") {
        Some(SlashCommand::Reset)
    } else if same_text(w, "/compact") {
        Some(SlashCommand::Compact)
    } else if same_text(w, "/help") || same_text(w, "/?") {
        Some(SlashCommand::Help)
    } else if same_text(w, "/stats") || same_text(w, "/status") {
        Some(SlashCommand::Stats)
    } else if same_text(w, "/log") {
        Some(SlashCommand::Log)
    } else if same_text(w, "/terminal-setup") {
        Some(SlashCommand::TerminalSetup)
    } else if same_text(w, "/config") || same_text(w, "/theme") || same_text(w, "/model") {
        Some(SlashCommand::Config)
    } else if same_text(w, "/reload") {
        Some(SlashCommand::Reload)
    } else if same_text(w, "/session") {
        Some(SlashCommand::Session)
    } else if same_text(w, "/update") {
        Some(SlashCommand::Update)
    } else {
        None
    }
}

proof fn lemma_word_prefix(s: Seq<char>, k: int)
    requires
        0 <= k <= s.len(),
        forall|j: int| 0 <= j < k ==> !is_ws(s[j]),
        k == s.len() || is_ws(s[k]),
    ensures
        word_prefix(s) == s.take(k),
    decreases s.len(),
{
    if s.len() == 0 || is_ws(s[0]) {
        assert(k == 0);
        assert(s.take(0) =~= Seq::<char>::empty());
    } else {
        assert(k >= 1);
        lemma_word_prefix(s.drop_first(), k - 1);
        assert(seq![s[0]] + s.drop_first().take(k - 1) =~= s.take(k));
    }
}

/// Parses a command line.
pub fn parse_command(line: &str) -> (c: SlashCommand)
    ensures
        parsed_command(line@, c),
{
    let t = trimmed(line);
    if t.len() > 0 && t[0] == '!' {
        if t.len() == 1 {
            return SlashCommand::EmptyShell;
        }
        let mut rest: Vec<char> = Vec::new();
        let mut k: usize = 1;
        while k < t.len()
            invariant
                1 <= k <= t.len(),
                rest@ == t@.subrange(1, k as int),
            decreases t.len() - k,
        {
            rest.push(t[k]);
            assert(t@.subrange(1, k + 1) =~= t@.subrange(1, k as int).push(t@[k as int]));
            k = k + 1;
        }
        assert(rest@ =~= t@.drop_first());
        return SlashCommand::Shell(string_of(&rest));
    }
    // the first word: skip white space, then take up to the next white space
    let start = trim_start_vec(&t, 0);
    assert(t@.subrange(0, t.len() as int) =~= t@);
    if start == t.len() {
        assert(trim_start(t@).len() == 0);
        return SlashCommand::Blank;
    }
    let mut end = start;
    while end < t.len() && !char_is_ws(t[end])
        invariant
            start <= end <= t.len(),
            forall|j: int| start <= j < end ==> !is_ws(t@[j]),
        decreases t.len() - end,
    {
        end = end + 1;
    }
    let mut word: Vec<char> = Vec::new();
    let mut k = start;
    while k < end
        invariant
            start <= k <= end <= t.len(),
            word@ == t@.subrange(start as int, k as int),
        decreases end - k,
    {
        word.push(t[k]);
        assert(t@.subrange(start as int, k + 1) =~= t@.subrange(start as int, k as int).push(t@[k as int]));
        k = k + 1;
    }
    proof {
        let rest = t@.subrange(start as int, t.len() as int);
        assert(rest == trim_start(t@));
        lemma_word_prefix(rest, end - start);
        assert(rest.take(end - start) =~= t@.subrange(start as int, end as int));
    }
    let w = string_of(&word);
    let lw = to_lowercase(w.as_str());
    command_for_word(lw)
}

/// The command a lower-cased first word names; a word that names no command
/// gives `Unknown` with the word.
pub fn command_for_word(lowered: String) -> (c: SlashCommand)
    ensures
        command_code(lowered@) == 0 ==> (c matches SlashCommand::Unknown(u) && u@ == lowered@),
        command_code(lowered@) != 0 ==> command_of_code(command_code(lowered@), c),
{
    match command_named(lowered.as_str()) {
        Some(c) => c,
        None => SlashCommand::Unknown(lowered),
    }
}

// ---------------------------------------------------------------- texts

/// The notice for an unknown command.
pub open spec fn unknown_command_text(word: Seq<char>) -> Seq<char> {
    "Unknown command: "@ + word + ". Type /help for available commands."@
}

/// The notice for an unknown command.
pub fn unknown_command_message(word: &str) -> (s: String)
    ensures
        s@ == unknown_command_text(word@),
{
    let mut s = String::new();
    append_str(&mut s, "Unknown command: ");
    append_str(&mut s, word);
    append_str(&mut s, ". Type /help for available commands.");
    s
}

/// The setup advice for the terminal program named by `TERM_PROGRAM`.
pub open spec fn terminal_setup_text(term: Seq<char>) -> Seq<char> {
    if term == "iTerm.app"@ {
        "## iTerm2 Setup\n\nTo enable Shift+Enter for multiline input:\n\n1. Open iTerm2 Preferences (⌘,)\n2. Go to Keys → Key Bindings\n3. Click + to add a new binding\n4. Set Keyboard Shortcut to Shift+Enter\n5. Set Action to \"Send Text with vim Special Chars\"\n6. Enter: \\n\n\nRestart iTerm2 for changes to take effect."@
    } else if term == "Apple_Terminal"@ {
        "## Terminal.app Setup\n\nMacOS Terminal has limited key binding support.\nConsider using iTerm2 or another terminal for better experience."@
    } else {
        "## Terminal Setup\n\nFor Shift+Enter support, check your terminal's documentation.\nMost modern terminals support custom key bindings.\n\nAlternatively, use Ctrl+J to insert newlines."@
    }
}

/// The setup advice for a terminal program.
pub fn terminal_setup_message(term: &str) -> (s: &'static str)
    ensures
        s@ == terminal_setup_text(term@),
{
    if same_text(term, "iTerm.app") {
        "## iTerm2 Setup\n\nTo enable Shift+Enter for multiline input:\n\n1. Open iTerm2 Preferences (⌘,)\n2. Go to Keys → Key Bindings\n3. Click + to add a new binding\n4. Set Keyboard Shortcut to Shift+Enter\n5. Set Action to \"Send Text with vim Special Chars\"\n6. Enter: \\n\n\nRestart iTerm2 for changes to take effect."
    } else if same_text(term, "Apple_Terminal") {
        "## Terminal.app Setup\n\nMacOS Terminal has limited key binding support.\nConsider using iTerm2 or another terminal for better experience."
    } else {
        "## Terminal Setup\n\nFor Shift+Enter support, check your terminal's documentation.\nMost modern terminals support custom key bindings.\n\nAlternatively, use Ctrl+J to insert newlines."
    }
}

/// What a shell command's output panel shows: its standard output, or its
/// error output when that is empty, or `(no output)`; and its exit code, -1
/// when it has none (it was killed by a signal).
pub open spec fn shell_result(stdout: Seq<u8>, stderr: Seq<u8>, code: Option<i32>) -> (Seq<char>, i32) {
    shell_text_result(utf8_lossy(stdout), utf8_lossy(stderr), code)
}

/// The same, over the decoded texts of the two outputs.
pub open spec fn shell_text_result(out: Seq<char>, err: Seq<char>, code: Option<i32>) -> (Seq<char>, i32) {
    (
        if out.len() > 0 { out } else if err.len() > 0 { err } else { "(no output)"@ },
        match code { Some(c) => c, None => -1i32 },
    )
}

/// The text and exit code shown for a finished shell command.
pub fn shell_outcome(stdout: &[u8], stderr: &[u8], code: Option<i32>) -> (r: (String, i32))
    ensures
        (r.0@, r.1) == shell_result(stdout@, stderr@, code),
{
    let out = text_from_bytes_lossy(stdout);
    let err = text_from_bytes_lossy(stderr);
    shell_text_outcome(out, err, code)
}

/// The text and exit code shown for a finished shell command, from its
/// decoded outputs.
pub fn shell_text_outcome(out: String, err: String, code: Option<i32>) -> (r: (String, i32))
    ensures
        (r.0@, r.1) == shell_text_result(out@, err@, code),
{
    let text = if !out.as_str().is_empty() {
        out
    } else if !err.as_str().is_empty() {
        err
    } else {
        "(no output)".to_string()
    };
    let exit = match code {
        Some(c) => c,
        None => -1,
    };
    (text, exit)
}

/// The short form of a session id: its first eight bytes (all of it when shorter).
pub open spec fn short_id(id: Seq<char>) -> Seq<char> {
    if byte_len(id) <= 8 { id } else { decode_utf8(encode_utf8(id).take(8)) }
}

/// Whether the short form can be cut from a session id: byte 8 starts a
/// character, or the id is not longer.
pub open spec fn short_id_cuttable(id: Seq<char>) -> bool {
    byte_len(id) <= 8 || is_char_boundary(encode_utf8(id), 8)
}

/// The short form of a session id.
pub fn short_session_id(id: &str) -> (s: String)
    requires
        short_id_cuttable(id@),
    ensures
        s@ == short_id(id@),
{
    if id.len() <= 8 {
        proof {
            vstd::utf8::encode_utf8_decode_utf8(id@);
        }
        id.to_string()
    } else {
        let (head, _rest) = id.split_at(8);
        proof {
            vstd::utf8::encode_utf8_decode_utf8(head@);
        }
        head.to_string()
    }
}

/// Whether the short form can be cut from a session id.
pub fn session_id_cuttable(id: &str) -> (ok: bool)
    ensures
        ok == short_id_cuttable(id@),
{
    id.len() <= 8 || id.is_char_boundary(8)
}

/// The lines printed when the session ends, telling how to resume it.
pub open spec fn resume_hint_lines(id: Seq<char>) -> Seq<Seq<char>> {
    seq![
        Seq::empty(),
        "To continue this session, run: revibe --continue"@,
        "Or: revibe --resume "@ + short_id(id),
    ]
}

/// The lines printed when the session ends, telling how to resume it.
pub fn resume_hint(id: &str) -> (lines: Vec<String>)
    requires
        short_id_cuttable(id@),
    ensures
        crate::text::strings_view(lines@) == resume_hint_lines(id@),
{
    let mut lines: Vec<String> = Vec::new();
    lines.push(String::new());
    lines.push("To continue this session, run: revibe --continue".to_string());
    let mut last = "Or: revibe --resume ".to_string();
    let short = short_session_id(id);
    append_str(&mut last, short.as_str());
    lines.push(last);
    assert(crate::text::strings_view(lines@) =~= resume_hint_lines(id@));
    lines
}

/// The session notice: the short id, the mode and the working directory, or
/// that there is no session.
pub open spec fn session_info_text(id: Option<Seq<char>>, mode_name: Seq<char>, workdir: Seq<char>) -> Seq<char> {
    match id {
        Some(i) => "## Current Session\n\n- **Session ID**: "@ + short_id(i) + "\n- **Mode**: "@ + mode_name
            + "\n- **Working Directory**: "@ + workdir,
        None => "No active session"@,
    }
}

/// The session notice.
pub fn session_info(id: Option<&str>, mode_name: &str, workdir: &str) -> (s: String)
    requires
        id matches Some(i) ==> short_id_cuttable(i@),
    ensures
        s@ == session_info_text(match id { Some(i) => Some(i@), None => None }, mode_name@, workdir@),
{
    match id {
        Some(i) => {
            let mut s = "## Current Session\n\n- **Session ID**: ".to_string();
            let short = short_session_id(i);
            append_str(&mut s, short.as_str());
            append_str(&mut s, "\n- **Mode**: ");
            append_str(&mut s, mode_name);
            append_str(&mut s, "\n- **Working Directory**: ");
            append_str(&mut s, workdir);
            s
        },
        None => "No active session".to_string(),
    }
}

/// The notice naming the log file.
pub open spec fn log_path_text(path: Seq<char>) -> Seq<char> {
    "## Current Log File Path\n\n`"@ + path + "`\n\nYou can send this file to share your interaction."@
}

/// The notice naming the log file.
pub fn log_path_message(path: &str) -> (s: String)
    ensures
        s@ == log_path_text(path@),
{
    let mut s = "## Current Log File Path\n\n`".to_string();
    append_str(&mut s, path);
    append_str(&mut s, "`\n\nYou can send this file to share your interaction.");
    s
}

/// The notice that compaction starts: the context size and the threshold, in thousands of tokens.
pub open spec fn compact_start_text(current: u64, threshold: u64) -> Seq<char> {
    "Compacting conversation ("@ + decimal((current / 1000) as nat) + "k tokens > "@
        + decimal((threshold / 1000) as nat) + "k threshold)..."@
}

/// The notice that compaction starts.
pub fn compact_start_message(current: u64, threshold: u64) -> (s: String)
    ensures
        s@ == compact_start_text(current, threshold),
{
    let mut s = "Compacting conversation (".to_string();
    push_decimal(&mut s, current / 1000);
    append_str(&mut s, "k tokens > ");
    push_decimal(&mut s, threshold / 1000);
    append_str(&mut s, "k threshold)...");
    s
}

/// The notice that compaction ended: the context size before and after, in thousands of tokens.
pub open spec fn compact_end_text(old_tokens: u64, new_tokens: u64) -> Seq<char> {
    "Compacted: "@ + decimal((old_tokens / 1000) as nat) + "k → "@ + decimal((new_tokens / 1000) as nat)
        + "k tokens"@
}

/// The notice that compaction ended.
pub fn compact_end_message(old_tokens: u64, new_tokens: u64) -> (s: String)
    ensures
        s@ == compact_end_text(old_tokens, new_tokens),
{
    let mut s = "Compacted: ".to_string();
    push_decimal(&mut s, old_tokens / 1000);
    append_str(&mut s, "k → ");
    push_decimal(&mut s, new_tokens / 1000);
    append_str(&mut s, "k tokens");
    s
}

/// A text after a fixed prefix.
pub fn prefixed(prefix: &str, text: &str) -> (s: String)
    ensures
        s@ == prefix@ + text@,
{
    let mut s = prefix.to_string();
    append_str(&mut s, text);
    s
}

/// The notice of a mode change.
pub fn switched_mode_message(display_name: &str) -> (s: String)
    ensures
        s@ == "Switched to "@ + display_name@ + " mode"@,
{
    let mut s = "Switched to ".to_string();
    append_str(&mut s, display_name);
    append_str(&mut s, " mode");
    s
}


// ---------------------------------------------------------------- command steps

/// Whether `m` is the notice with text `text` and kind `kind`.
pub open spec fn is_notice(m: SystemMessage, text: Seq<char>, kind: SystemMessageKind) -> bool {
    m.content@ == text && m.kind == kind
}

/// A notice of the given kind.
pub fn notice(text: String, kind: SystemMessageKind) -> (m: SystemMessage)
    ensures
        is_notice(m, text@, kind),
{
    SystemMessage { content: text, kind }
}

/// What the session does for a command line, and the outside work it needs;
/// the notices that depend on that work are made by the functions named.
#[derive(Debug)]
pub enum CommandStep {
    /// Nothing: the line was blank.
    Nothing,
    /// Show a notice.
    Notify(SystemMessage),
    /// Show the notice and leave the session.
    Leave(SystemMessage),
    /// Clear the agent's history, then change the chat as `history_cleared`
    /// says, with this notice.
    ClearHistory(SystemMessage),
    /// Show the first notice, compact the conversation, then change the chat
    /// as `conversation_compacted` says, with the second notice.
    Compact(SystemMessage, SystemMessage),
    /// Show the help of the commands.
    ShowHelp,
    /// Show the agent's statistics.
    ShowStats,
    /// Show where the session log is written (`log_notice`).
    ShowLogPath,
    /// Show the setup advice for the terminal program (`terminal_notice`).
    ShowTerminalSetup,
    /// Open the configuration screen.
    OpenConfig,
    /// Load the configuration again (`reload_notice`).
    ReloadConfig,
    /// Show the current session (`session_notice`).
    ShowSession,
    /// Look for a newer version (`update_notice`).
    CheckUpdates,
    /// Run the shell command in the working directory (`shell_outcome`,
    /// `shell_failure_notice`).
    RunShell(String),
}

/// The step of a command: `/quit` says goodbye and leaves; `/clear` and
/// `/reset` clear the conversation with their own notices; `/compact` is
/// announced and confirmed; `!` alone is an error and an unknown word a
/// warning; the rest name their own step.
pub open spec fn command_step_of(c: SlashCommand, s: CommandStep) -> bool {
    match c {
        SlashCommand::Blank => s is Nothing,
        SlashCommand::EmptyShell => s matches CommandStep::Notify(m)
            && is_notice(m, "No command provided after '!'"@, SystemMessageKind::Error),
        SlashCommand::Shell(cmd) => s matches CommandStep::RunShell(x) && x@ == cmd@,
        SlashCommand::Quit => s matches CommandStep::Leave(m) && is_notice(m, "Bye!"@, SystemMessageKind::Info),
        SlashCommand::Clear => s matches CommandStep::ClearHistory(m)
            && is_notice(m, "Conversation cleared."@, SystemMessageKind::Info),
        SlashCommand::Reset => s matches CommandStep::ClearHistory(m)
            && is_notice(m, "Conversation reset. All history cleared."@, SystemMessageKind::Info),
        SlashCommand::Compact => s matches CommandStep::Compact(before, after)
            && is_notice(before, "Compacting conversation..."@, SystemMessageKind::Info)
            && is_notice(after, "Compacted."@, SystemMessageKind::Info),
        SlashCommand::Help => s is ShowHelp,
        SlashCommand::Stats => s is ShowStats,
        SlashCommand::Log => s is ShowLogPath,
        SlashCommand::TerminalSetup => s is ShowTerminalSetup,
        SlashCommand::Config => s is OpenConfig,
        SlashCommand::Reload => s is ReloadConfig,
        SlashCommand::Session => s is ShowSession,
        SlashCommand::Update => s is CheckUpdates,
        SlashCommand::Unknown(w) => s matches CommandStep::Notify(m)
            && is_notice(m, unknown_command_text(w@), SystemMessageKind::Warning),
    }
}

/// The step of a parsed command.
pub fn command_step(c: SlashCommand) -> (s: CommandStep)
    ensures
        command_step_of(c, s),
{
    match c {
        SlashCommand::Blank => CommandStep::Nothing,
        SlashCommand::EmptyShell => CommandStep::Notify(
            notice("No command provided after '!'".to_string(), SystemMessageKind::Error),
        ),
        SlashCommand::Shell(cmd) => CommandStep::RunShell(cmd),
        SlashCommand::Quit => CommandStep::Leave(notice("Bye!".to_string(), SystemMessageKind::Info)),
        SlashCommand::Clear => CommandStep::ClearHistory(
            notice("Conversation cleared.".to_string(), SystemMessageKind::Info),
        ),
        SlashCommand::Reset => CommandStep::ClearHistory(
            notice("Conversation reset. All history cleared.".to_string(), SystemMessageKind::Info),
        ),
        SlashCommand::Compact => CommandStep::Compact(
            notice("Compacting conversation...".to_string(), SystemMessageKind::Info),
            notice("Compacted.".to_string(), SystemMessageKind::Info),
        ),
        SlashCommand::Help => CommandStep::ShowHelp,
        SlashCommand::Stats => CommandStep::ShowStats,
        SlashCommand::Log => CommandStep::ShowLogPath,
        SlashCommand::TerminalSetup => CommandStep::ShowTerminalSetup,
        SlashCommand::Config => CommandStep::OpenConfig,
        SlashCommand::Reload => CommandStep::ReloadConfig,
        SlashCommand::Session => CommandStep::ShowSession,
        SlashCommand::Update => CommandStep::CheckUpdates,
        SlashCommand::Unknown(w) => CommandStep::Notify(
            notice(unknown_command_message(w.as_str()), SystemMessageKind::Warning),
        ),
    }
}

/// The notice naming the log file, or a warning that there is none.
pub fn log_notice(path: Option<&str>) -> (m: SystemMessage)
    ensures
        match path {
            Some(p) => is_notice(m, log_path_text(p@), SystemMessageKind::Info),
            None => is_notice(
                m,
                "Session logging is disabled or no log file created yet."@,
                SystemMessageKind::Warning,
            ),
        },
{
    match path {
        Some(p) => notice(log_path_message(p), SystemMessageKind::Info),
        None => notice(
            "Session logging is disabled or no log file created yet.".to_string(),
            SystemMessageKind::Warning,
        ),
    }
}

/// The setup advice for the terminal program named by `TERM_PROGRAM` (empty
/// when unset).
pub fn terminal_notice(term: &str) -> (m: SystemMessage)
    ensures
        is_notice(m, terminal_setup_text(term@), SystemMessageKind::Info),
{
    notice(terminal_setup_message(term).to_string(), SystemMessageKind::Info)
}

/// The outcome of loading the configuration again: `None` when it loaded,
/// else the error's text.
pub fn reload_notice(error: Option<&str>) -> (m: SystemMessage)
    ensures
        match error {
            None => is_notice(m, "Configuration reloaded successfully."@, SystemMessageKind::Info),
            Some(e) => is_notice(m, "Failed to reload configuration: "@ + e@, SystemMessageKind::Error),
        },
{
    match error {
        None => notice("Configuration reloaded successfully.".to_string(), SystemMessageKind::Info),
        Some(e) => notice(prefixed("Failed to reload configuration: ", e), SystemMessageKind::Error),
    }
}

/// The outcome of looking for a newer version: `None` when the lookup
/// succeeded, else the error's text.
pub fn update_notice(error: Option<&str>) -> (m: SystemMessage)
    ensures
        match error {
            None => is_notice(m, "Checked for updates. No new version available."@, SystemMessageKind::Info),
            Some(e) => is_notice(m, "Failed to check for updates: "@ + e@, SystemMessageKind::Error),
        },
{
    match error {
        None => notice("Checked for updates. No new version available.".to_string(), SystemMessageKind::Info),
        Some(e) => notice(prefixed("Failed to check for updates: ", e), SystemMessageKind::Error),
    }
}

/// The notice that a shell command could not be started.
pub fn shell_failure_notice(error: &str) -> (m: SystemMessage)
    ensures
        is_notice(m, "Command failed: "@ + error@, SystemMessageKind::Error),
{
    notice(prefixed("Command failed: ", error), SystemMessageKind::Error)
}

/// The notice for a command or an agent task that failed.
pub fn error_notice(error: &str) -> (m: SystemMessage)
    ensures
        is_notice(m, "Error: "@ + error@, SystemMessageKind::Error),
{
    notice(prefixed("Error: ", error), SystemMessageKind::Error)
}

/// The session notice, as an information.
pub fn session_notice(id: Option<&str>, mode_name: &str, workdir: &str) -> (m: SystemMessage)
    requires
        id matches Some(i) ==> short_id_cuttable(i@),
    ensures
        is_notice(
            m,
            session_info_text(match id { Some(i) => Some(i@), None => None }, mode_name@, workdir@),
            SystemMessageKind::Info,
        ),
{
    notice(session_info(id, mode_name, workdir), SystemMessageKind::Info)
}


/// The notices after switching the mode: a failure to hand the mode to the
/// agent, if there was one, then the switch itself.
pub fn mode_switch_notices(display_name: &str, update_error: Option<&str>) -> (v: Vec<SystemMessage>)
    ensures
        match update_error {
            None => v@.len() == 1 && is_notice(v@[0], "Switched to "@ + display_name@ + " mode"@, SystemMessageKind::Info),
            Some(e) => v@.len() == 2 && is_notice(v@[0], "Failed to update mode: "@ + e@, SystemMessageKind::Error)
                && is_notice(v@[1], "Switched to "@ + display_name@ + " mode"@, SystemMessageKind::Info),
        },
{
    let mut v: Vec<SystemMessage> = Vec::new();
    if let Some(e) = update_error {
        v.push(notice(prefixed("Failed to update mode: ", e), SystemMessageKind::Error));
    }
    v.push(notice(switched_mode_message(display_name), SystemMessageKind::Info));
    v
}


/// A change to the chat.
#[derive(Debug)]
pub enum ChatEdit {
    /// Remove every entry of the chat.
    ClearMessages,
    /// Add a notice.
    Show(SystemMessage),
}

/// What the chat shows once the agent's history was cleared for `/clear` or
/// `/reset` (the notice of the step): when the clearing succeeded, the chat is
/// emptied and then the notice added; a failure is passed on, with the chat
/// left as it was.
pub fn history_cleared(notice: SystemMessage, outcome: Result<(), String>) -> (r: Result<Vec<ChatEdit>, String>)
    ensures
        match outcome {
            Ok(()) => r matches Ok(v) && v@.len() == 2 && v@[0] is ClearMessages && v@[1] == ChatEdit::Show(
                notice,
            ),
            Err(e) => r == Err::<Vec<ChatEdit>, String>(e),
        },
{
    match outcome {
        Ok(()) => {
            let mut v: Vec<ChatEdit> = Vec::new();
            v.push(ChatEdit::ClearMessages);
            v.push(ChatEdit::Show(notice));
            Ok(v)
        },
        Err(e) => Err(e),
    }
}

/// What the chat shows once the conversation was compacted for `/compact`
/// (the closing notice of the step): when the compaction succeeded, the
/// notice; a failure is passed on, with the chat left as it was.
pub fn conversation_compacted(notice: SystemMessage, outcome: Result<(), String>) -> (r: Result<
    Vec<ChatEdit>,
    String,
>)
    ensures
        match outcome {
            Ok(()) => r matches Ok(v) && v@.len() == 1 && v@[0] == ChatEdit::Show(notice),
            Err(e) => r == Err::<Vec<ChatEdit>, String>(e),
        },
{
    match outcome {
        Ok(()) => {
            let mut v: Vec<ChatEdit> = Vec::new();
            v.push(ChatEdit::Show(notice));
            Ok(v)
        },
        Err(e) => Err(e),
    }
}


/// The command a line names by its first word, once lower-cased, whatever
/// follows it: `/quit`, `/exit` and `/q` leave; `/clear`, `/reset`,
/// `/compact`, `/log`, `/terminal-setup`, `/reload`, `/session` and `/update`
/// name their own command; `/help` and `/?` ask for help; `/stats` and
/// `/status` for the statistics; `/config`, `/theme` and `/model` open the
/// configuration. (A line that starts with `!` is a shell command instead.)
pub proof fn law_command_words(line: Seq<char>, c: SlashCommand)
    requires
        parsed_command(line, c),
        !(trim(line).len() > 0 && trim(line)[0] == '!'),
        first_word(trim(line)) is Some,
    ensures
        ({
            let w = lowercase(first_word(trim(line))->0);
            &&& (w == "/quit"@ || w == "/exit"@ || w == "/q"@) ==> c is Quit
            &&& w == "/clear"@ ==> c is Clear
            &&& w == "/reset"@ ==> c is Reset
            &&& w == "/compact"@ ==> c is Compact
            &&& (w == "/help"@ || w == "/?"@) ==> c is Help
            &&& (w == "/stats"@ || w == "/status"@) ==> c is Stats
            &&& w == "/log"@ ==> c is Log
            &&& w == "/terminal-setup"@ ==> c is TerminalSetup
            &&& (w == "/config"@ || w == "/theme"@ || w == "/model"@) ==> c is Config
            &&& w == "/reload"@ ==> c is Reload
            &&& w == "/session"@ ==> c is Session
            &&& w == "/update"@ ==> c is Update
        }),
{
    reveal_strlit("/quit");
    reveal_strlit("/exit");
    reveal_strlit("/q");
    reveal_strlit("/clear");
    reveal_strlit("/reset");
    reveal_strlit("/compact");
    reveal_strlit("/help");
    reveal_strlit("/?");
    reveal_strlit("/stats");
    reveal_strlit("/status");
    reveal_strlit("/log");
    reveal_strlit("/terminal-setup");
    reveal_strlit("/config");
    reveal_strlit("/theme");
    reveal_strlit("/model");
    reveal_strlit("/reload");
    reveal_strlit("/session");
    reveal_strlit("/update");
    assert(command_code("/quit"@) == 1);
    assert(command_code("/exit"@) == 1);
    assert(command_code("/q"@) == 1);
    assert("/clear"@.len() != "/quit"@.len());
    assert("/clear"@.len() != "/exit"@.len());
    assert("/clear"@.len() != "/q"@.len());
    assert(command_code("/clear"@) == 2);
    assert("/reset"@.len() != "/quit"@.len());
    assert("/reset"@.len() != "/exit"@.len());
    assert("/reset"@.len() != "/q"@.len());
    assert("/reset"@[1] != "/clear"@[1]);
    assert(command_code("/reset"@) == 3);
    assert("/compact"@.len() != "/quit"@.len());
    assert("/compact"@.len() != "/exit"@.len());
    assert("/compact"@.len() != "/q"@.len());
    assert("/compact"@.len() != "/clear"@.len());
    assert("/compact"@.len() != "/reset"@.len());
    assert(command_code("/compact"@) == 4);
    assert("/help"@[1] != "/quit"@[1]);
    assert("/help"@[1] != "/exit"@[1]);
    assert("/help"@.len() != "/q"@.len());
    assert("/help"@.len() != "/clear"@.len());
    assert("/help"@.len() != "/reset"@.len());
    assert("/help"@.len() != "/compact"@.len());
    assert(command_code("/help"@) == 5);
    assert("/?"@.len() != "/quit"@.len());
    assert("/?"@.len() != "/exit"@.len());
    assert("/?"@[1] != "/q"@[1]);
    assert("/?"@.len() != "/clear"@.len());
    assert("/?"@.len() != "/reset"@.len());
    assert("/?"@.len() != "/compact"@.len());
    assert(command_code("/?"@) == 5);
    assert("/stats"@.len() != "/quit"@.len());
    assert("/stats"@.len() != "/exit"@.len());
    assert("/stats"@.len() != "/q"@.len());
    assert("/stats"@[1] != "/clear"@[1]);
    assert("/stats"@[1] != "/reset"@[1]);
    assert("/stats"@.len() != "/compact"@.len());
    assert("/stats"@.len() != "/help"@.len());
    assert("/stats"@.len() != "/?"@.len());
    assert(command_code("/stats"@) == 6);
    assert("/status"@.len() != "/quit"@.len());
    assert("/status"@.len() != "/exit"@.len());
    assert("/status"@.len() != "/q"@.len());
    assert("/status"@.len() != "/clear"@.len());
    assert("/status"@.len() != "/reset"@.len());
    assert("/status"@.len() != "/compact"@.len());
    assert("/status"@.len() != "/help"@.len());
    assert("/status"@.len() != "/?"@.len());
    assert(command_code("/status"@) == 6);
    assert("/log"@.len() != "/quit"@.len());
    assert("/log"@.len() != "/exit"@.len());
    assert("/log"@.len() != "/q"@.len());
    assert("/log"@.len() != "/clear"@.len());
    assert("/log"@.len() != "/reset"@.len());
    assert("/log"@.len() != "/compact"@.len());
    assert("/log"@.len() != "/help"@.len());
    assert("/log"@.len() != "/?"@.len());
    assert("/log"@.len() != "/stats"@.len());
    assert("/log"@.len() != "/status"@.len());
    assert(command_code("/log"@) == 7);
    assert("/terminal-setup"@.len() != "/quit"@.len());
    assert("/terminal-setup"@.len() != "/exit"@.len());
    assert("/terminal-setup"@.len() != "/q"@.len());
    assert("/terminal-setup"@.len() != "/clear"@.len());
    assert("/terminal-setup"@.len() != "/reset"@.len());
    assert("/terminal-setup"@.len() != "/compact"@.len());
    assert("/terminal-setup"@.len() != "/help"@.len());
    assert("/terminal-setup"@.len() != "/?"@.len());
    assert("/terminal-setup"@.len() != "/stats"@.len());
    assert("/terminal-setup"@.len() != "/status"@.len());
    assert("/terminal-setup"@.len() != "/log"@.len());
    assert(command_code("/terminal-setup"@) == 8);
    assert("/config"@.len() != "/quit"@.len());
    assert("/config"@.len() != "/exit"@.len());
    assert("/config"@.len() != "/q"@.len());
    assert("/config"@.len() != "/clear"@.len());
    assert("/config"@.len() != "/reset"@.len());
    assert("/config"@.len() != "/compact"@.len());
    assert("/config"@.len() != "/help"@.len());
    assert("/config"@.len() != "/?"@.len());
    assert("/config"@.len() != "/stats"@.len());
    assert("/config"@[1] != "/status"@[1]);
    assert("/config"@.len() != "/log"@.len());
    assert("/config"@.len() != "/terminal-setup"@.len());
    assert(command_code("/config"@) == 9);
    assert("/theme"@.len() != "/quit"@.len());
    assert("/theme"@.len() != "/exit"@.len());
    assert("/theme"@.len() != "/q"@.len());
    assert("/theme"@[1] != "/clear"@[1]);
    assert("/theme"@[1] != "/reset"@[1]);
    assert("/theme"@.len() != "/compact"@.len());
    assert("/theme"@.len() != "/help"@.len());
    assert("/theme"@.len() != "/?"@.len());
    assert("/theme"@[1] != "/stats"@[1]);
    assert("/theme"@.len() != "/status"@.len());
    assert("/theme"@.len() != "/log"@.len());
    assert("/theme"@.len() != "/terminal-setup"@.len());
    assert(command_code("/theme"@) == 9);
    assert("/model"@.len() != "/quit"@.len());
    assert("/model"@.len() != "/exit"@.len());
    assert("/model"@.len() != "/q"@.len());
    assert("/model"@[1] != "/clear"@[1]);
    assert("/model"@[1] != "/reset"@[1]);
    assert("/model"@.len() != "/compact"@.len());
    assert("/model"@.len() != "/help"@.len());
    assert("/model"@.len() != "/?"@.len());
    assert("/model"@[1] != "/stats"@[1]);
    assert("/model"@.len() != "/status"@.len());
    assert("/model"@.len() != "/log"@.len());
    assert("/model"@.len() != "/terminal-setup"@.len());
    assert(command_code("/model"@) == 9);
    assert("/reload"@.len() != "/quit"@.len());
    assert("/reload"@.len() != "/exit"@.len());
    assert("/reload"@.len() != "/q"@.len());
    assert("/reload"@.len() != "/clear"@.len());
    assert("/reload"@.len() != "/reset"@.len());
    assert("/reload"@.len() != "/compact"@.len());
    assert("/reload"@.len() != "/help"@.len());
    assert("/reload"@.len() != "/?"@.len());
    assert("/reload"@.len() != "/stats"@.len());
    assert("/reload"@[1] != "/status"@[1]);
    assert("/reload"@.len() != "/log"@.len());
    assert("/reload"@.len() != "/terminal-setup"@.len());
    assert("/reload"@[1] != "/config"@[1]);
    assert("/reload"@.len() != "/theme"@.len());
    assert("/reload"@.len() != "/model"@.len());
    assert(command_code("/reload"@) == 10);
    assert("/session"@.len() != "/quit"@.len());
    assert("/session"@.len() != "/exit"@.len());
    assert("/session"@.len() != "/q"@.len());
    assert("/session"@.len() != "/clear"@.len());
    assert("/session"@.len() != "/reset"@.len());
    assert("/session"@[1] != "/compact"@[1]);
    assert("/session"@.len() != "/help"@.len());
    assert("/session"@.len() != "/?"@.len());
    assert("/session"@.len() != "/stats"@.len());
    assert("/session"@.len() != "/status"@.len());
    assert("/session"@.len() != "/log"@.len());
    assert("/session"@.len() != "/terminal-setup"@.len());
    assert("/session"@.len() != "/config"@.len());
    assert("/session"@.len() != "/theme"@.len());
    assert("/session"@.len() != "/model"@.len());
    assert("/session"@.len() != "/reload"@.len());
    assert(command_code("/session"@) == 11);
    assert("/update"@.len() != "/quit"@.len());
    assert("/update"@.len() != "/exit"@.len());
    assert("/update"@.len() != "/q"@.len());
    assert("/update"@.len() != "/clear"@.len());
    assert("/update"@.len() != "/reset"@.len());
    assert("/update"@.len() != "/compact"@.len());
    assert("/update"@.len() != "/help"@.len());
    assert("/update"@.len() != "/?"@.len());
    assert("/update"@.len() != "/stats"@.len());
    assert("/update"@[1] != "/status"@[1]);
    assert("/update"@.len() != "/log"@.len());
    assert("/update"@.len() != "/terminal-setup"@.len());
    assert("/update"@[1] != "/config"@[1]);
    assert("/update"@.len() != "/theme"@.len());
    assert("/update"@.len() != "/model"@.len());
    assert("/update"@[1] != "/reload"@[1]);
    assert("/update"@.len() != "/session"@.len());
    assert(command_code("/update"@) == 12);
}

} // verus!
