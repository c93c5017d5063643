//! The loading indicator, the input box, the approval dialog and the
//! completion popup.
use vstd::prelude::*;
use vstd::utf8::{decode_utf8, encode_utf8, is_char_boundary};
use crate::messages::CompletionSuggestion;
use crate::modes::{mode_border_color, safety_color, safety_of, AgentMode};
use crate::style::{
    accent, background, blank_line, empty_line, error, fg_style, foreground, foreground_muted,
    gradient, gradient_color, line, line_of, lines_view, muted, plain, primary, push_line,
    push_span, span, span_of, span_str, spans_view, style_fg, style_plain, success, text_color,
    warning, with_bg, with_bold, with_italic, LineView, Rgb, SpanView, StyledLine, StyledSpan,
    TextStyle,
};
use crate::text::{
    append_str, chars_of, decimal, lines_of, push_char, push_decimal, same_text, std_lines,
    strings_view,
};
use crate::widgets::byte_len;

verus! {

// ---------------------------------------------------------------- loading

/// The gradient colour of position `p` of the loading line: positions before
/// the wave front already show the next colour, the others the current one.
pub open spec fn wave_color(p: int, progress: int, total: int) -> Rgb {
    let current = (progress / total) % 5;
    let next = (current + 1) % 5;
    let wave = progress % total;
    if p < wave {
        gradient()[next]
    } else {
        gradient()[current]
    }
}

/// The loading line: the spinner frame, each character of the status, an
/// ellipsis and a space, coloured by the wave; then the elapsed time hint.
pub open spec fn loading_line(
    elapsed_secs: u64,
    status: Seq<char>,
    spinner_frame: Seq<char>,
    progress: usize,
) -> LineView {
    let n = status.len() as int;
    let total = n + 3;
    line_of(
        seq![span_of(spinner_frame + " "@, fg_style(wave_color(0, progress as int, total)))]
            + Seq::new(
            status.len(),
            |i: int| span_of(seq![status[i]], fg_style(wave_color(1 + i, progress as int, total))),
        ) + seq![
            span_of("…"@, fg_style(wave_color(n + 1, progress as int, total))),
            span_of(" "@, fg_style(wave_color(n + 2, progress as int, total))),
            span_of("("@ + decimal(elapsed_secs as nat) + "s esc to interrupt)"@, fg_style(muted())),
        ],
    )
}

/// Render the loading indicator with its gradient wave.
pub fn render_loading(
    elapsed_secs: u64,
    status: &str,
    spinner_frame: &str,
    transition_progress: usize,
) -> (l: StyledLine)
    requires
        status@.len() + 3 <= usize::MAX,
    ensures
        l@ == loading_line(elapsed_secs, status@, spinner_frame@, transition_progress),
{
    let cs = chars_of(status);
    let n = cs.len();
    let total = n + 3;
    let current = (transition_progress / total) % 5;
    let next = (current + 1) % 5;
    let wave = transition_progress % total;
    let ghost tp = transition_progress as int;
    let mut spans: Vec<StyledSpan> = Vec::new();
    let mut t = String::new();
    append_str(&mut t, spinner_frame);
    append_str(&mut t, " ");
    let c0 = if 0 < wave { gradient_color(next) } else { gradient_color(current) };
    push_span(&mut spans, span(t, style_fg(c0)));
    let ghost head = spans_view(spans@);
    let ghost body = Seq::new(
        status@.len(),
        |i: int| span_of(seq![status@[i]], fg_style(wave_color(1 + i, tp, total as int))),
    );
    for i in 0..n
        invariant
            n == cs.len(),
            cs@ == status@,
            total == n + 3,
            current == (tp / total as int) % 5,
            next == (current + 1) % 5,
            wave == tp % total as int,
            tp == transition_progress as int,
            body.len() == n,
            forall|k: int| 0 <= k < n ==> #[trigger] body[k] == span_of(
                seq![status@[k]],
                fg_style(wave_color(1 + k, tp, total as int)),
            ),
            spans_view(spans@) == head + body.take(i as int),
    {
        let c = if i + 1 < wave { gradient_color(next) } else { gradient_color(current) };
        let mut ch = String::new();
        push_char(&mut ch, cs[i]);
        assert(ch@ =~= seq![status@[i as int]]);
        push_span(&mut spans, span(ch, style_fg(c)));
        assert(spans_view(spans@) =~~= head + body.take(i + 1));
    }
    let c1 = if n + 1 < wave { gradient_color(next) } else { gradient_color(current) };
    push_span(&mut spans, span_str("…", style_fg(c1)));
    let c2 = if n + 2 < wave { gradient_color(next) } else { gradient_color(current) };
    push_span(&mut spans, span_str(" ", style_fg(c2)));
    let mut hint = String::new();
    append_str(&mut hint, "(");
    push_decimal(&mut hint, elapsed_secs);
    append_str(&mut hint, "s esc to interrupt)");
    push_span(&mut spans, span(hint, style_fg(muted())));
    assert(body.take(n as int) =~= body);
    assert(spans_view(spans@) =~~= loading_line(elapsed_secs, status@, spinner_frame@, transition_progress).spans);
    line(spans)
}

/// The loading animation repeats itself: after five sweeps of the wave over
/// the line, one per colour of the gradient, the line is drawn the same again.
pub proof fn law_loading_wave_repeats(
    elapsed_secs: u64,
    status: Seq<char>,
    spinner_frame: Seq<char>,
    progress: usize,
)
    requires
        progress + 5 * (status.len() + 3) <= usize::MAX,
    ensures
        loading_line(elapsed_secs, status, spinner_frame, progress) == loading_line(
            elapsed_secs,
            status,
            spinner_frame,
            (progress + 5 * (status.len() + 3)) as usize,
        ),
{
    let t = status.len() as int + 3;
    let p = progress as int;
    let later = (progress + 5 * (status.len() + 3)) as usize;
    assert(later as int == p + 5 * t);
    assert((p + 5 * t) / t == p / t + 5) by {
        vstd::arithmetic::div_mod::lemma_hoist_over_denominator(p, 5, t as nat);
    }
    assert((p / t + 5) % 5 == (p / t) % 5) by {
        vstd::arithmetic::div_mod::lemma_mod_add_multiples_vanish(p / t, 5);
    }
    assert((p + 5 * t) % t == p % t) by {
        vstd::arithmetic::div_mod::lemma_mod_multiples_vanish(5, p, t);
        assert(t * 5 + p == p + 5 * t) by (nonlinear_arith);
    }
    assert forall|q: int| wave_color(q, p, t) == #[trigger] wave_color(q, later as int, t) by {}
    let a = loading_line(elapsed_secs, status, spinner_frame, progress);
    let b = loading_line(elapsed_secs, status, spinner_frame, later);
    assert(a.spans =~= b.spans);
}

// ---------------------------------------------------------------- input box

/// The input box: its lines, the colour of its top and bottom borders, and the
/// base style of its text.
#[derive(Debug)]
pub struct InputBox {
    pub lines: Vec<StyledLine>,
    pub border_color: Rgb,
    pub style: TextStyle,
}

/// The multiline marker, present only in multiline mode.
pub open spec fn multiline_marker(multiline: bool) -> SpanView {
    if multiline {
        span_of("📝 "@, fg_style(accent()))
    } else {
        span_of(Seq::empty(), plain())
    }
}

/// The prompt in front of the input.
pub open spec fn input_prompt() -> SpanView {
    span_of("> "@, with_bold(fg_style(primary())))
}

/// The lines of the input box. In multiline mode with content, each line of
/// the content has its own row: the first after the marker and the prompt,
/// the others indented by two columns. Otherwise one row holds the marker, the
/// prompt, and the content or, when it is empty, the placeholder.
pub open spec fn input_box_lines(content: Seq<char>, multiline: bool) -> Seq<LineView> {
    if multiline && content.len() > 0 {
        let ls = std_lines(content);
        Seq::new(
            ls.len(),
            |i: int|
                if i == 0 {
                    line_of(seq![multiline_marker(multiline), input_prompt(), span_of(ls[0], plain())])
                } else {
                    line_of(seq![span_of("  "@, plain()), span_of(ls[i], plain())])
                },
        )
    } else {
        let content_span = if content.len() == 0 {
            span_of("Ask anything..."@, with_italic(fg_style(foreground_muted())))
        } else {
            span_of(content, plain())
        };
        seq![line_of(seq![multiline_marker(multiline), input_prompt(), content_span])]
    }
}

fn marker_span(multiline: bool) -> (s: StyledSpan)
    ensures
        s@ == multiline_marker(multiline),
{
    if multiline {
        span_str("📝 ", style_fg(accent()))
    } else {
        span(String::new(), style_plain())
    }
}

/// Render the input box; its borders take the colour of the mode.
pub fn render_input_box(content: &str, cursor: usize, mode: AgentMode, multiline: bool) -> (b: InputBox)
    ensures
        lines_view(b.lines@) == input_box_lines(content@, multiline),
        b.border_color == safety_color(safety_of(mode)),
        b.style == fg_style(foreground()),
{
    let border_color = mode_border_color(&mode);
    let mut out: Vec<StyledLine> = Vec::new();
    if multiline && !content.is_empty() {
        let ls = lines_of(content);
        let ghost tl = strings_view(ls@);
        let ghost target = input_box_lines(content@, multiline);
        for i in 0..ls.len()
            invariant
                multiline,
                content@.len() > 0,
                tl == strings_view(ls@),
                tl == std_lines(content@),
                target == input_box_lines(content@, multiline),
                lines_view(out@) == target.take(i as int),
        {
            let mut spans: Vec<StyledSpan> = Vec::new();
            if i == 0 {
                push_span(&mut spans, marker_span(multiline));
                push_span(&mut spans, span_str("> ", style_fg(primary()).bold()));
                push_span(&mut spans, span(ls[i].clone(), style_plain()));
            } else {
                push_span(&mut spans, span_str("  ", style_plain()));
                push_span(&mut spans, span(ls[i].clone(), style_plain()));
            }
            push_line(&mut out, line(spans));
            assert(lines_view(out@) =~~= target.take(i + 1));
        }
        assert(target.take(ls.len() as int) =~= target);
    } else {
        let mut spans: Vec<StyledSpan> = Vec::new();
        push_span(&mut spans, marker_span(multiline));
        push_span(&mut spans, span_str("> ", style_fg(primary()).bold()));
        if content.is_empty() {
            push_span(&mut spans, span_str("Ask anything...", style_fg(foreground_muted()).italic()));
        } else {
            push_span(&mut spans, span_str(content, style_plain()));
        }
        push_line(&mut out, line(spans));
        assert(lines_view(out@) =~~= input_box_lines(content@, multiline));
    }
    InputBox { lines: out, border_color, style: style_fg(foreground()) }
}

// ---------------------------------------------------------------- approval

/// The value of a tool argument as the approval dialog shows it.
#[derive(Debug)]
pub enum ArgValue {
    /// A JSON string, shown as its text.
    Text(String),
    /// Any other JSON value, in its JSON notation.
    Json(String),
}

/// A named argument of a tool call awaiting approval.
#[derive(Debug)]
pub struct ApprovalArg {
    pub key: String,
    pub value: ArgValue,
}

/// Whether a string argument is long enough to be shortened.
pub open spec fn too_long(s: Seq<char>) -> bool {
    byte_len(s) > 60
}

/// The text shown for an argument: strings of more than 60 bytes are cut to
/// their first 57 bytes followed by `...`.
pub open spec fn shown_value(v: ArgValue) -> Seq<char> {
    match v {
        ArgValue::Text(s) => if too_long(s@) {
            decode_utf8(encode_utf8(s@).take(57)) + "..."@
        } else {
            s@
        },
        ArgValue::Json(j) => j@,
    }
}

/// The keys whose values are highlighted.
pub open spec fn highlighted_key(key: Seq<char>) -> bool {
    key == "command"@ || key == "path"@ || key == "file_path"@
}

/// The line of one argument.
pub open spec fn arg_line(a: ApprovalArg) -> LineView {
    line_of(
        seq![
            span_of(a.key@ + ": "@, fg_style(muted())),
            span_of(
                shown_value(a.value),
                if highlighted_key(a.key@) { fg_style(primary()) } else { plain() },
            ),
        ],
    )
}

/// Whether every long string argument can be cut after 57 bytes, that is,
/// byte 57 starts a character.
pub open spec fn args_cuttable(args: Seq<ApprovalArg>) -> bool {
    forall|i: int|
        0 <= i < args.len() ==> match #[trigger] args[i].value {
            ArgValue::Text(s) => too_long(s@) ==> is_char_boundary(encode_utf8(s@), 57),
            ArgValue::Json(_) => true,
        }
}

/// The text of option `i` of the approval dialog.
pub open spec fn option_text(i: int, tool_name: Seq<char>) -> Seq<char> {
    if i == 0 {
        "Yes"@
    } else if i == 1 {
        "Yes and always allow "@ + tool_name + " for this session"@
    } else {
        "No and tell the agent what to do instead"@
    }
}

/// The style of option `i`: refusing is red, accepting green, bold when selected.
pub open spec fn option_style(i: int, selected: usize) -> TextStyle {
    let base = if i == 2 { fg_style(error()) } else { fg_style(success()) };
    if i == selected { with_bold(base) } else { base }
}

/// The line of option `i`, with its shortcut where it has one.
pub open spec fn option_line(i: int, tool_name: Seq<char>, selected: usize) -> LineView {
    let style = option_style(i, selected);
    let cursor = if i == selected { "› "@ } else { "  "@ };
    let main = seq![
        span_of(cursor, style),
        span_of(decimal((i + 1) as nat) + ". "@ + option_text(i, tool_name), style),
    ];
    if i == 0 {
        line_of(main.push(span_of(" (y)"@, fg_style(muted()))))
    } else if i == 2 {
        line_of(main.push(span_of(" (n)"@, fg_style(muted()))))
    } else {
        line_of(main)
    }
}

/// The help line of the approval dialog.
pub open spec fn approval_help_line() -> LineView {
    line_of(
        seq![
            span_of("↑↓ navigate  "@, fg_style(muted())),
            span_of("Enter"@, fg_style(text_color())),
            span_of(" select  "@, fg_style(muted())),
            span_of("y/n"@, fg_style(text_color())),
            span_of(" quick  "@, fg_style(muted())),
            span_of("ESC"@, fg_style(text_color())),
            span_of(" reject"@, fg_style(muted())),
        ],
    )
}

/// The lines of the approval dialog: the title, a blank line, one line per
/// argument, a blank line, the three options, a blank line and the help line.
pub open spec fn approval_lines(tool_name: Seq<char>, args: Seq<ApprovalArg>, selected: usize) -> Seq<LineView> {
    seq![
        line_of(seq![span_of("⚠ "@ + tool_name + " command"@, with_bold(fg_style(warning())))]),
        empty_line(),
    ] + args.map_values(|a: ApprovalArg| arg_line(a)) + seq![
        empty_line(),
        option_line(0, tool_name, selected),
        option_line(1, tool_name, selected),
        option_line(2, tool_name, selected),
        empty_line(),
        approval_help_line(),
    ]
}

/// Whether every long string argument can be cut where the dialog cuts it.
pub fn approval_args_cuttable(args: &Vec<ApprovalArg>) -> (ok: bool)
    ensures
        ok == args_cuttable(args@),
{
    for i in 0..args.len()
        invariant
            forall|k: int|
                0 <= k < i ==> match #[trigger] args@[k].value {
                    ArgValue::Text(s) => too_long(s@) ==> is_char_boundary(encode_utf8(s@), 57),
                    ArgValue::Json(_) => true,
                },
    {
        match &args[i].value {
            ArgValue::Text(s) => {
                if s.as_str().len() > 60 && !s.as_str().is_char_boundary(57) {
                    return false;
                }
            },
            ArgValue::Json(_) => {},
        }
    }
    true
}

fn shown_value_of(v: &ArgValue) -> (s: String)
    requires
        match *v {
            ArgValue::Text(s) => too_long(s@) ==> is_char_boundary(encode_utf8(s@), 57),
            ArgValue::Json(_) => true,
        },
    ensures
        s@ == shown_value(*v),
{
    match v {
        ArgValue::Text(s) => {
            if s.as_str().len() > 60 {
                let (head, _tail) = s.as_str().split_at(57);
                proof {
                    vstd::utf8::encode_utf8_decode_utf8(head@);
                }
                let mut out = head.to_string();
                append_str(&mut out, "...");
                out
            } else {
                s.clone()
            }
        },
        ArgValue::Json(j) => j.clone(),
    }
}

fn is_highlighted(key: &str) -> (r: bool)
    ensures
        r == highlighted_key(key@),
{
    same_text(key, "command") || same_text(key, "path") || same_text(key, "file_path")
}

fn option_line_of(i: usize, tool_name: &str, selected: usize) -> (l: StyledLine)
    requires
        i < 3,
    ensures
        l@ == option_line(i as int, tool_name@, selected),
{
    let base = if i == 2 { style_fg(error()) } else { style_fg(success()) };
    let style = if i == selected { base.bold() } else { base };
    let mut spans: Vec<StyledSpan> = Vec::new();
    push_span(&mut spans, span_str(if i == selected { "› " } else { "  " }, style));
    let mut t = String::new();
    push_decimal(&mut t, (i + 1) as u64);
    append_str(&mut t, ". ");
    if i == 0 {
        append_str(&mut t, "Yes");
    } else if i == 1 {
        append_str(&mut t, "Yes and always allow ");
        append_str(&mut t, tool_name);
        append_str(&mut t, " for this session");
    } else {
        append_str(&mut t, "No and tell the agent what to do instead");
    }
    push_span(&mut spans, span(t, style));
    if i == 0 {
        push_span(&mut spans, span_str(" (y)", style_fg(muted())));
    } else if i == 2 {
        push_span(&mut spans, span_str(" (n)", style_fg(muted())));
    }
    let l = line(spans);
    assert(l@ =~~= option_line(i as int, tool_name@, selected));
    l
}

/// The lines of the approval dialog for a tool call and its arguments.
pub fn render_approval_dialog(tool_name: &str, args: &Vec<ApprovalArg>, selected: usize) -> (out: Vec<StyledLine>)
    requires
        args_cuttable(args@),
    ensures
        lines_view(out@) == approval_lines(tool_name@, args@, selected),
{
    let mut out: Vec<StyledLine> = Vec::new();
    let mut title = String::new();
    append_str(&mut title, "⚠ ");
    append_str(&mut title, tool_name);
    append_str(&mut title, " command");
    let mut spans: Vec<StyledSpan> = Vec::new();
    push_span(&mut spans, span(title, style_fg(warning()).bold()));
    push_line(&mut out, line(spans));
    push_line(&mut out, blank_line());
    let ghost head = lines_view(out@);
    let ghost arg_lines = args@.map_values(|a: ApprovalArg| arg_line(a));
    for i in 0..args.len()
        invariant
            args_cuttable(args@),
            arg_lines == args@.map_values(|a: ApprovalArg| arg_line(a)),
            lines_view(out@) == head + arg_lines.take(i as int),
    {
        let a = &args[i];
        assert(match args@[i as int].value {
            ArgValue::Text(s) => too_long(s@) ==> is_char_boundary(encode_utf8(s@), 57),
            ArgValue::Json(_) => true,
        });
        let mut key = a.key.clone();
        append_str(&mut key, ": ");
        let style = if is_highlighted(a.key.as_str()) { style_fg(primary()) } else { style_plain() };
        let mut spans: Vec<StyledSpan> = Vec::new();
        push_span(&mut spans, span(key, style_fg(muted())));
        push_span(&mut spans, span(shown_value_of(&a.value), style));
        push_line(&mut out, line(spans));
        assert(lines_view(out@) =~~= head + arg_lines.take(i + 1));
    }
    assert(arg_lines.take(args.len() as int) =~= arg_lines);
    push_line(&mut out, blank_line());
    push_line(&mut out, option_line_of(0, tool_name, selected));
    push_line(&mut out, option_line_of(1, tool_name, selected));
    push_line(&mut out, option_line_of(2, tool_name, selected));
    push_line(&mut out, blank_line());
    let mut help: Vec<StyledSpan> = Vec::new();
    push_span(&mut help, span_str("↑↓ navigate  ", style_fg(muted())));
    push_span(&mut help, span_str("Enter", style_fg(text_color())));
    push_span(&mut help, span_str(" select  ", style_fg(muted())));
    push_span(&mut help, span_str("y/n", style_fg(text_color())));
    push_span(&mut help, span_str(" quick  ", style_fg(muted())));
    push_span(&mut help, span_str("ESC", style_fg(text_color())));
    push_span(&mut help, span_str(" reject", style_fg(muted())));
    push_line(&mut out, line(help));
    assert(lines_view(out@) =~~= approval_lines(tool_name@, args@, selected));
    out
}

// ---------------------------------------------------------------- completion popup

/// A rectangle of the terminal.
#[derive(Debug, Clone, Copy, PartialEq, Eq, Structural)]
pub struct Rect {
    pub x: u16,
    pub y: u16,
    pub width: u16,
    pub height: u16,
}

/// Where the completion popup goes and what it shows.
#[derive(Debug)]
pub struct PopupLayout {
    pub area: Rect,
    pub lines: Vec<StyledLine>,
}

/// The columns a suggestion needs: its completion, and its description with
/// four columns of separation when it has one.
pub open spec fn suggestion_width(s: CompletionSuggestion) -> int {
    byte_len(s.completion@) + if s.description@.len() == 0 { 0 } else { byte_len(s.description@) + 4 }
}

/// The widest suggestion's width (0 for none).
pub open spec fn widest(s: Seq<CompletionSuggestion>) -> int
    decreases s.len(),
{
    if s.len() == 0 {
        0
    } else {
        let w = widest(s.drop_last());
        let last = suggestion_width(s.last());
        if last > w { last } else { w }
    }
}

/// `n`, or the largest `usize` when it does not fit one.
pub open spec fn capped(n: int) -> int {
    if n > usize::MAX { usize::MAX as int } else { n }
}

/// The height of the popup: one row per suggestion (counted modulo 2^16, as
/// a 16-bit number) plus two, at most twelve.
pub open spec fn popup_height(count: nat) -> int {
    let h: int = (count % 65536) as int + 2;
    if h < 12 { h } else { 12 }
}

/// Where the popup goes: above the input area when it fits there, else below
/// it; two columns in from the area, as wide as the widest suggestion (at most
/// 60 columns).
pub open spec fn popup_area(area: Rect, s: Seq<CompletionSuggestion>) -> Rect {
    let height = popup_height(s.len());
    Rect {
        x: (area.x + 2) as u16,
        y: if area.y >= height { (area.y - height) as u16 } else { (area.y + area.height) as u16 },
        width: if widest(s) < 60 { widest(s) as u16 } else { 60u16 },
        height: height as u16,
    }
}

/// The line of suggestion `i`; the selected one is highlighted on the background.
pub open spec fn suggestion_line(s: CompletionSuggestion, selected: bool) -> LineView {
    let label = if selected {
        with_bg(with_bold(fg_style(primary())), background())
    } else {
        with_bold(fg_style(text_color()))
    };
    let desc = if selected {
        with_bg(with_italic(fg_style(muted())), background())
    } else {
        fg_style(muted())
    };
    if s.description@.len() == 0 {
        line_of(seq![span_of(s.completion@, label)])
    } else {
        line_of(seq![span_of(s.completion@, label), span_of("  "@, desc), span_of(s.description@, desc)])
    }
}

proof fn lemma_widest_nonneg(s: Seq<CompletionSuggestion>)
    ensures
        widest(s) >= 0,
    decreases s.len(),
{
    if s.len() > 0 {
        lemma_widest_nonneg(s.drop_last());
    }
}

/// The lines of the popup.
pub open spec fn popup_lines(s: Seq<CompletionSuggestion>, selected_index: usize) -> Seq<LineView> {
    Seq::new(s.len(), |i: int| suggestion_line(s[i], i == selected_index))
}

/// Whether the popup's position can be computed in 16-bit coordinates without
/// overflow.
pub open spec fn popup_fits(area: Rect, count: nat) -> bool {
    &&& count % 65536 + 2 <= 65535
    &&& area.x + 2 <= 65535
    &&& area.y < popup_height(count) ==> area.y + area.height <= 65535
}

/// Whether the popup for `count` suggestions can be placed in `area`.
pub fn popup_fits_area(area: Rect, count: usize) -> (ok: bool)
    ensures
        ok == popup_fits(area, count as nat),
{
    let c = count % 65536;
    if c + 2 > 65535 {
        return false;
    }
    let h: usize = if c + 2 < 12 { c + 2 } else { 12 };
    if area.x as usize + 2 > 65535 {
        return false;
    }
    if (area.y as usize) < h && area.y as usize + area.height as usize > 65535 {
        return false;
    }
    true
}

proof fn lemma_widest_bounds(s: Seq<CompletionSuggestion>)
    ensures
        forall|i: int| 0 <= i < s.len() ==> suggestion_width(#[trigger] s[i]) <= widest(s),
        s.len() > 0 ==> exists|i: int| 0 <= i < s.len() && suggestion_width(s[i]) == widest(s),
    decreases s.len(),
{
    if s.len() > 0 {
        let p = s.drop_last();
        lemma_widest_bounds(p);
        assert forall|i: int| 0 <= i < s.len() implies suggestion_width(#[trigger] s[i]) <= widest(s) by {
            if i < s.len() - 1 {
                assert(s[i] == p[i]);
            }
        }
        if p.len() > 0 && widest(s) == widest(p) {
            let j = choose|j: int| 0 <= j < p.len() && suggestion_width(p[j]) == widest(p);
            assert(s[j] == p[j]);
        } else {
            lemma_widest_nonneg(p);
            assert(suggestion_width(s[s.len() - 1]) == widest(s));
        }
    }
}

/// The popup is as wide as its widest suggestion, up to 60 columns: no
/// suggestion is wider than the popup unless the popup has its full 60
/// columns, and the popup is no wider than some suggestion.
pub proof fn law_popup_fits_its_widest_suggestion(area: Rect, s: Seq<CompletionSuggestion>)
    requires
        s.len() > 0,
    ensures
        ({
            let w = popup_area(area, s).width;
            &&& w <= 60
            &&& forall|i: int| 0 <= i < s.len() ==> suggestion_width(#[trigger] s[i]) <= w || w == 60
            &&& exists|i: int| 0 <= i < s.len() && suggestion_width(s[i]) >= w
        }),
{
    lemma_widest_bounds(s);
    lemma_widest_nonneg(s);
    let j = choose|j: int| 0 <= j < s.len() && suggestion_width(s[j]) == widest(s);
    assert(suggestion_width(s[j]) >= popup_area(area, s).width);
}

/// The popup sits just above the input area when there is room for it there,
/// else just below it, two columns in; it has a row for each suggestion plus
/// two for its frame, at most twelve in all.
pub proof fn law_popup_sits_beside_the_input(area: Rect, s: Seq<CompletionSuggestion>)
    requires
        s.len() > 0,
        popup_fits(area, s.len()),
        s.len() + 2 <= 65535,
    ensures
        ({
            let p = popup_area(area, s);
            &&& p.height == (if s.len() + 2 < 12 { s.len() + 2 } else { 12 })
            &&& p.x == area.x + 2
            &&& area.y >= p.height ==> p.y + p.height == area.y
            &&& area.y < p.height ==> p.y == area.y + area.height
        }),
{
    assert(s.len() % 65536 == s.len()) by {
        vstd::arithmetic::div_mod::lemma_small_mod(s.len(), 65536);
    }
}

/// The completion popup: none without suggestions; otherwise its place and lines.
pub fn render_completion_popup(
    area: Rect,
    suggestions: &[CompletionSuggestion],
    selected_index: usize,
) -> (r: Option<PopupLayout>)
    requires
        suggestions@.len() > 0 ==> popup_fits(area, suggestions@.len()),
    ensures
        suggestions@.len() == 0 ==> r is None,
        suggestions@.len() > 0 ==> (r matches Some(p) && p.area == popup_area(area, suggestions@)
            && lines_view(p.lines@) == popup_lines(suggestions@, selected_index)),
{
    if suggestions.len() == 0 {
        return None;
    }
    let count16 = (suggestions.len() % 65536) as u16 + 2;
    let height: u16 = if count16 < 12 { count16 } else { 12 };
    let popup_y = if area.y >= height { area.y - height } else { area.y + area.height };
    let mut widest_width: usize = 0;
    for i in 0..suggestions.len()
        invariant
            widest_width == capped(widest(suggestions@.take(i as int))),
    {
        let s = &suggestions[i];
        let w = if s.description.as_str().is_empty() {
            s.completion.as_str().len()
        } else {
            s.completion.as_str().len().saturating_add(s.description.as_str().len().saturating_add(4))
        };
        assert(suggestions@.take(i + 1).drop_last() == suggestions@.take(i as int));
        assert(w == capped(suggestion_width(*s)));
        if w > widest_width {
            widest_width = w;
        }
    }
    assert(suggestions@.take(suggestions.len() as int) == suggestions@);
    let width: u16 = if widest_width < 60 { widest_width as u16 } else { 60 };
    assert(widest(suggestions@) >= 0) by {
        lemma_widest_nonneg(suggestions@);
    }
    let popup = Rect { x: area.x + 2, y: popup_y, width, height };
    let mut lines: Vec<StyledLine> = Vec::new();
    for i in 0..suggestions.len()
        invariant
            lines_view(lines@) == popup_lines(suggestions@, selected_index).take(i as int),
    {
        let s = &suggestions[i];
        let selected = i == selected_index;
        let label = if selected {
            style_fg(primary()).bold().bg(background())
        } else {
            style_fg(text_color()).bold()
        };
        let desc = if selected {
            style_fg(muted()).italic().bg(background())
        } else {
            style_fg(muted())
        };
        let mut spans: Vec<StyledSpan> = Vec::new();
        push_span(&mut spans, span(s.completion.clone(), label));
        if !s.description.as_str().is_empty() {
            push_span(&mut spans, span_str("  ", desc));
            push_span(&mut spans, span(s.description.clone(), desc));
        }
        push_line(&mut lines, line(spans));
        assert(lines_view(lines@) =~~= popup_lines(suggestions@, selected_index).take(i + 1));
    }
    assert(popup_lines(suggestions@, selected_index).take(suggestions.len() as int) =~= popup_lines(suggestions@, selected_index));
    Some(PopupLayout { area: popup, lines })
}

} // verus!
