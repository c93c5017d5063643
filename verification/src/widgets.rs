//! The text layout of the chat view: each kind of entry becomes styled lines.
use vstd::prelude::*;
use vstd::utf8::encode_utf8;
use crate::markdown::{markdown_lines, markdown_parse, render_markdown};
use crate::messages::{
    AssistantMessage, BashOutputMessage, CompactMessage, ErrorMessage, SystemMessage, SystemMessageKind, ToolCallMessage,
    ToolResultMessage, UserCommandMessage, UserMessage, WarningMessage,
};
use crate::style::{
    blank_line, empty_line, error, fg_style, filled, filled_line, foreground, foreground_muted,
    line, line_of, lines_view, muted, plain, primary, push_line, push_span, span, span_of,
    span_str, spans_view, style_fg, style_plain, success, surface, warning, with_bg, with_bold,
    with_italic, LineView, SpanView, StyledLine, StyledSpan, TextStyle,
};
use crate::text::{
    append_str, chars_of, decimal, lines_of, push_char, push_decimal, push_signed_decimal, repeat_char,
    signed_decimal, spaces, std_lines, strings_view,
};

verus! {

/// The number of bytes of a text in UTF-8, as `str::len` reports it.
pub open spec fn byte_len(s: Seq<char>) -> usize {
    encode_utf8(s).len() as usize
}

/// `a - b`, or 0 when `b` is larger.
pub open spec fn sat_sub(a: int, b: int) -> int {
    if a > b { a - b } else { 0 }
}

/// The mark in front of line `i` of `count` lines: a closing corner for the
/// last line, a bar before it.
pub open spec fn border_mark(i: int, count: int) -> Seq<char> {
    if i == count - 1 { "⎣"@ } else { "⎢"@ }
}

/// Lines framed by a muted border on the left, their text in `style`.
pub open spec fn bordered(ls: Seq<Seq<char>>, style: TextStyle) -> Seq<LineView> {
    Seq::new(
        ls.len(),
        |i: int|
            line_of(
                seq![
                    span_of("  "@ + border_mark(i, ls.len() as int) + " "@, fg_style(muted())),
                    span_of(ls[i], style),
                ],
            ),
    )
}

/// The border mark in front of a line, with its indentation.
fn border_text(i: usize, count: usize) -> (s: String)
    ensures
        s@ == "  "@ + border_mark(i as int, count as int) + " "@,
{
    let mut s = String::new();
    append_str(&mut s, "  ");
    if count >= 1 && i == count - 1 {
        append_str(&mut s, "⎣");
    } else {
        append_str(&mut s, "⎢");
    }
    append_str(&mut s, " ");
    s
}

/// The lines of `text`, framed by a muted border, in `style`.
pub fn bordered_lines(text: &str, style: TextStyle) -> (out: Vec<StyledLine>)
    ensures
        lines_view(out@) == bordered(std_lines(text@), style),
{
    let ls = lines_of(text);
    let ghost tl = strings_view(ls@);
    let count = ls.len();
    let mut out: Vec<StyledLine> = Vec::new();
    for i in 0..count
        invariant
            count == ls.len(),
            tl == strings_view(ls@),
            lines_view(out@) == bordered(tl, style).take(i as int),
    {
        let mut spans: Vec<StyledSpan> = Vec::new();
        push_span(&mut spans, span(border_text(i, count), style_fg(muted())));
        push_span(&mut spans, span(ls[i].clone(), style));
        assert(spans_view(spans@) =~= bordered(tl, style)[i as int].spans);
        push_line(&mut out, line(spans));
        assert(bordered(tl, style).take(i + 1) =~= bordered(tl, style).take(i as int).push(
            bordered(tl, style)[i as int],
        ));
    }
    assert(bordered(tl, style).take(count as int) =~= bordered(tl, style));
    out
}

/// The layout of a user message: a blank line, then the message on the
/// surface between two surface-coloured padding lines as wide as the view.
pub open spec fn user_message_lines(content: Seq<char>, pending: bool, width: u16) -> Seq<LineView> {
    let surface_style = with_bg(plain(), surface());
    let prompt = with_bold(fg_style(primary()));
    let content_style = if pending {
        with_italic(fg_style(foreground_muted()))
    } else {
        with_bold(fg_style(foreground()))
    };
    let pad = repeat_char(' ', width as nat);
    let fill = repeat_char(' ', sat_sub(width as int, byte_len(content) + 2) as nat);
    seq![
        empty_line(),
        filled_line(pad, surface_style),
        line_of(
            seq![
                span_of("> "@, with_bg(prompt, surface())),
                span_of(content, with_bg(content_style, surface())),
                span_of(fill, surface_style),
            ],
        ),
        filled_line(pad, surface_style),
    ]
}

/// Render a user message.
pub fn render_user_message(msg: &UserMessage, width: u16) -> (out: Vec<StyledLine>)
    ensures
        lines_view(out@) == user_message_lines(msg.content@, msg.pending, width),
{
    let prompt_style = style_fg(primary()).bold();
    let content_style = if msg.pending {
        style_fg(foreground_muted()).italic()
    } else {
        style_fg(foreground()).bold()
    };
    let surface_style = style_plain().bg(surface());
    let mut out: Vec<StyledLine> = Vec::new();
    push_line(&mut out, blank_line());
    push_line(&mut out, filled(spaces(width as usize), surface_style));
    let used = msg.content.as_str().len().saturating_add(2);
    let fill = (width as usize).saturating_sub(used);
    let mut spans: Vec<StyledSpan> = Vec::new();
    push_span(&mut spans, span_str("> ", prompt_style.bg(surface())));
    push_span(&mut spans, span(msg.content.clone(), content_style.bg(surface())));
    push_span(&mut spans, span(spaces(fill), surface_style));
    push_line(&mut out, line(spans));
    push_line(&mut out, filled(spaces(width as usize), surface_style));
    assert(lines_view(out@) =~~= user_message_lines(msg.content@, msg.pending, width));
    out
}

/// The bullet in front of an assistant message.
pub open spec fn assistant_bullet() -> SpanView {
    span_of("● "@, fg_style(primary()))
}

/// The layout of an assistant message: a blank line, then the rendered
/// Markdown with a bullet before the first line and the others indented; a
/// message without content shows the bullet alone.
pub open spec fn assistant_message_lines(content: Seq<char>) -> Seq<LineView> {
    if content.len() == 0 {
        seq![empty_line(), line_of(seq![assistant_bullet()])]
    } else {
        let md = markdown_lines(markdown_parse(content));
        seq![empty_line()] + Seq::new(
            md.len(),
            |i: int|
                line_of(
                    seq![if i == 0 { assistant_bullet() } else { span_of("  "@, plain()) }]
                        + md[i].spans,
                ),
        )
    }
}

/// Render an assistant message with markdown formatting.
pub fn render_assistant_message(msg: &AssistantMessage) -> (out: Vec<StyledLine>)
    ensures
        lines_view(out@) == assistant_message_lines(msg.content@),
{
    let mut out: Vec<StyledLine> = Vec::new();
    push_line(&mut out, blank_line());
    if msg.content.as_str().is_empty() {
        let mut spans: Vec<StyledSpan> = Vec::new();
        push_span(&mut spans, span_str("● ", style_fg(primary())));
        push_line(&mut out, line(spans));
        assert(lines_view(out@) =~~= assistant_message_lines(msg.content@));
        return out;
    }
    let rendered = render_markdown(msg.content.as_str());
    let ghost md = lines_view(rendered@);
    let ghost target = assistant_message_lines(msg.content@);
    let mut rest = rendered;
    let mut i: usize = 0;
    let total = rest.len();
    assert(md.skip(0) =~= md);
    while rest.len() > 0
        invariant
            total == md.len(),
            i + rest.len() == total,
            lines_view(rest@) == md.skip(i as int),
            lines_view(out@) == target.take(i + 1),
            msg.content@.len() > 0,
            target == assistant_message_lines(msg.content@),
            md == markdown_lines(markdown_parse(msg.content@)),
        decreases rest.len(),
    {
        let ghost before_rest = lines_view(rest@);
        let ghost before_raw = rest@;
        let rl = rest.remove(0);
        assert(rest@ =~= before_raw.subrange(1, before_raw.len() as int));
        assert(rl@ == md[i as int]) by {
            assert(before_rest[0] == md.skip(i as int)[0]);
        }
        let mut spans: Vec<StyledSpan> = Vec::new();
        if i == 0 {
            push_span(&mut spans, span_str("● ", style_fg(primary())));
        } else {
            push_span(&mut spans, span_str("  ", style_plain()));
        }
        let ghost head = spans_view(spans@);
        let mut tail = rl.spans;
        let ghost tail_view = spans_view(tail@);
        spans.append(&mut tail);
        assert(spans_view(spans@) =~= head + tail_view);
        assert(tail_view == md[i as int].spans);
        assert(target[i + 1] == line_of(
            seq![if i == 0 { assistant_bullet() } else { span_of("  "@, plain()) }] + md[i as int].spans,
        ));
        let ghost out_before = lines_view(out@);
        push_line(&mut out, line(spans));
        assert(lines_view(out@) =~~= target.take(i + 1).push(target[i + 1]));
        assert forall|k: int| 0 <= k < md.skip(i + 1).len() implies #[trigger] lines_view(rest@)[k] == md.skip(i + 1)[k] by {
            assert(lines_view(rest@)[k] == before_raw[k + 1]@);
            assert(before_rest[k + 1] == md.skip(i as int)[k + 1]);
        }
        assert(lines_view(rest@) =~= md.skip(i + 1));
        assert(target.take(i + 2) =~~= target.take(i + 1).push(target[i + 1]));
        i = i + 1;
    }
    assert(target.take(total + 1) =~= target);
    out
}

/// The frames of the line spinner.
pub open spec fn line_frames() -> Seq<char> {
    seq!['|', '/', '-', '\\']
}

/// The layout of a tool call: a blank line, then the summary after a spinner
/// frame (chosen by `color_index`) while the call runs, or after a check mark.
pub open spec fn tool_call_lines(summary: Seq<char>, spinning: bool, color_index: usize) -> Seq<LineView> {
    let icon = if spinning {
        span_of(seq![line_frames()[(color_index % 4) as int], ' '], fg_style(warning()))
    } else {
        span_of("✓ "@, fg_style(success()))
    };
    seq![empty_line(), line_of(seq![icon, span_of(summary, plain())])]
}

/// Render a tool call message.
pub fn render_tool_call(msg: &ToolCallMessage, color_index: usize) -> (out: Vec<StyledLine>)
    ensures
        lines_view(out@) == tool_call_lines(msg.summary@, msg.spinning, color_index),
{
    let icon = if msg.spinning {
        let k = color_index % 4;
        let frame = if k == 0 { '|' } else if k == 1 { '/' } else if k == 2 { '-' } else { '\\' };
        let mut t = String::new();
        push_char(&mut t, frame);
        push_char(&mut t, ' ');
        assert(t@ =~= seq![line_frames()[(color_index % 4) as int], ' ']);
        span(t, style_fg(warning()))
    } else {
        span_str("✓ ", style_fg(success()))
    };
    let mut spans: Vec<StyledSpan> = Vec::new();
    push_span(&mut spans, icon);
    push_span(&mut spans, span(msg.summary.clone(), style_plain()));
    let mut out: Vec<StyledLine> = Vec::new();
    push_line(&mut out, blank_line());
    push_line(&mut out, line(spans));
    assert(lines_view(out@) =~~= tool_call_lines(msg.summary@, msg.spinning, color_index));
    out
}

/// The style of a tool result: errors in the error colour, skipped calls in the
/// warning colour.
pub open spec fn tool_result_style(has_error: bool, skipped: bool) -> TextStyle {
    if has_error {
        fg_style(error())
    } else if skipped {
        fg_style(warning())
    } else {
        plain()
    }
}

/// The layout of a tool result: its lines framed by a border; a result with
/// no lines shows the corner and its text.
pub open spec fn tool_result_lines(summary: Seq<char>, has_error: bool, skipped: bool) -> Seq<LineView> {
    let style = tool_result_style(has_error, skipped);
    let ls = std_lines(summary);
    if ls.len() == 0 {
        seq![line_of(seq![span_of("  ⎣ "@, fg_style(muted())), span_of(summary, style)])]
    } else {
        bordered(ls, style)
    }
}

/// Render a tool result message.
pub fn render_tool_result(msg: &ToolResultMessage) -> (out: Vec<StyledLine>)
    ensures
        lines_view(out@) == tool_result_lines(msg.summary@, msg.error is Some, msg.skipped),
{
    let text_style = if msg.error.is_some() {
        style_fg(error())
    } else if msg.skipped {
        style_fg(warning())
    } else {
        style_plain()
    };
    let mut out = bordered_lines(msg.summary.as_str(), text_style);
    if out.len() == 0 {
        let mut spans: Vec<StyledSpan> = Vec::new();
        push_span(&mut spans, span_str("  ⎣ ", style_fg(muted())));
        push_span(&mut spans, span(msg.summary.clone(), text_style));
        push_line(&mut out, line(spans));
        assert(lines_view(out@) =~~= tool_result_lines(msg.summary@, msg.error is Some, msg.skipped));
    }
    out
}

/// The style of a system message of a kind.
pub open spec fn system_style(kind: SystemMessageKind) -> TextStyle {
    match kind {
        SystemMessageKind::Info => plain(),
        SystemMessageKind::Warning => fg_style(warning()),
        SystemMessageKind::Error => fg_style(error()),
    }
}

/// Render a system message: a blank line, then its lines framed by a border.
pub fn render_system_message(msg: &SystemMessage) -> (out: Vec<StyledLine>)
    ensures
        lines_view(out@) == seq![empty_line()] + bordered(std_lines(msg.content@), system_style(msg.kind)),
{
    let style = match msg.kind {
        SystemMessageKind::Info => style_plain(),
        SystemMessageKind::Warning => style_fg(warning()),
        SystemMessageKind::Error => style_fg(error()),
    };
    let mut out: Vec<StyledLine> = Vec::new();
    push_line(&mut out, blank_line());
    let ghost head = lines_view(out@);
    let mut body = bordered_lines(msg.content.as_str(), style);
    let ghost body_view = lines_view(body@);
    out.append(&mut body);
    assert(lines_view(out@) =~~= head + body_view);
    out
}

/// Render a user command message: its lines framed by a border.
pub fn render_user_command_message(msg: &UserCommandMessage) -> (out: Vec<StyledLine>)
    ensures
        lines_view(out@) == bordered(std_lines(msg.content@), plain()),
{
    bordered_lines(msg.content.as_str(), style_plain())
}

/// The style of error reports.
pub open spec fn error_style() -> TextStyle {
    with_bold(fg_style(error()))
}

/// Render an error message: its lines framed by a border, in bold red; a
/// message with no lines shows the corner and its text.
pub fn render_error_message(msg: &ErrorMessage) -> (out: Vec<StyledLine>)
    ensures
        lines_view(out@) == if std_lines(msg.content@).len() == 0 {
            seq![line_of(seq![span_of("  ⎣ "@, fg_style(muted())), span_of(msg.content@, error_style())])]
        } else {
            bordered(std_lines(msg.content@), error_style())
        },
{
    let style = style_fg(error()).bold();
    let mut out = bordered_lines(msg.content.as_str(), style);
    if out.len() == 0 {
        let mut spans: Vec<StyledSpan> = Vec::new();
        push_span(&mut spans, span_str("  ⎣ ", style_fg(muted())));
        push_span(&mut spans, span(msg.content.clone(), style));
        push_line(&mut out, line(spans));
        assert(lines_view(out@) =~~= seq![line_of(seq![span_of("  ⎣ "@, fg_style(muted())), span_of(msg.content@, error_style())])]);
    }
    out
}

/// Render a warning message: its lines framed by a border, in the warning colour.
pub fn render_warning_message(msg: &WarningMessage) -> (out: Vec<StyledLine>)
    ensures
        lines_view(out@) == bordered(std_lines(msg.content@), fg_style(warning())),
{
    bordered_lines(msg.content.as_str(), style_fg(warning()))
}

/// The interruption notice.
pub open spec fn interrupt_lines() -> Seq<LineView> {
    seq![
        line_of(
            seq![
                span_of("  ⎣ "@, fg_style(muted())),
                span_of("Interrupted · What would you like Revibe to do instead?"@, fg_style(warning())),
            ],
        ),
    ]
}

/// Render an interrupt message.
pub fn render_interrupt() -> (out: Vec<StyledLine>)
    ensures
        lines_view(out@) == interrupt_lines(),
{
    let mut spans: Vec<StyledSpan> = Vec::new();
    push_span(&mut spans, span_str("  ⎣ ", style_fg(muted())));
    push_span(&mut spans, span_str("Interrupted · What would you like Revibe to do instead?", style_fg(warning())));
    let mut out: Vec<StyledLine> = Vec::new();
    push_line(&mut out, line(spans));
    assert(lines_view(out@) =~~= interrupt_lines());
    out
}

/// The style of the surface.
pub open spec fn surface_style() -> TextStyle {
    with_bg(plain(), surface())
}

/// A line of the bash output panel: two columns of padding, the spans, and
/// padding up to the width plus two columns, all on the surface.
pub open spec fn padded_line(spans: Seq<SpanView>, content_len: int, width: u16) -> LineView {
    line_of(
        seq![span_of("  "@, surface_style())] + spans + seq![
            span_of(repeat_char(' ', (sat_sub(width as int, content_len + 4) + 2) as nat), surface_style()),
        ],
    )
}

/// The exit status mark of a shell command.
pub open spec fn exit_mark(exit_code: i32) -> SpanView {
    if exit_code == 0 {
        span_of("✓"@, with_bg(fg_style(success()), surface()))
    } else {
        span_of("✗ ("@ + signed_decimal(exit_code as int) + ")"@, with_bg(fg_style(error()), surface()))
    }
}

/// The layout of a shell command's output: a blank line; then on the surface a
/// padding line, the working directory with the exit status, the command after
/// a prompt, a padding line, each output line, and a closing padding line.
/// Each line but the first is padded to the full width; the exit status mark
/// counts one column per character.
pub open spec fn bash_output_lines(
    cwd: Seq<char>,
    command: Seq<char>,
    output: Seq<char>,
    exit_code: i32,
    width: u16,
) -> Seq<LineView> {
    let pad = filled_line(repeat_char(' ', width as nat), surface_style());
    let cwd_len = byte_len(cwd) + 1 + exit_mark(exit_code).text.len();
    let out_lines = std_lines(output);
    seq![
        empty_line(),
        pad,
        padded_line(
            seq![
                span_of(cwd, with_bg(fg_style(muted()), surface())),
                span_of(" "@, surface_style()),
                exit_mark(exit_code),
            ],
            cwd_len,
            width,
        ),
        padded_line(
            seq![
                span_of("> "@, with_bg(with_bold(fg_style(primary())), surface())),
                span_of(command, with_bg(fg_style(foreground()), surface())),
            ],
            2 + byte_len(command),
            width,
        ),
        pad,
    ] + Seq::new(
        out_lines.len(),
        |i: int|
            padded_line(
                seq![span_of(out_lines[i], with_bg(fg_style(foreground()), surface()))],
                byte_len(out_lines[i]) as int,
                width,
            ),
    ) + seq![pad]
}

/// Pads spans to a line of the bash output panel.
fn pad_spans(spans: Vec<StyledSpan>, content_len: usize, width: u16) -> (l: StyledLine)
    ensures
        l@ == padded_line(spans_view(spans@), content_len as int, width),
{
    let surface_style = style_plain().bg(surface());
    let mut all: Vec<StyledSpan> = Vec::new();
    push_span(&mut all, span_str("  ", surface_style));
    let ghost head = spans_view(all@);
    let ghost middle = spans_view(spans@);
    let mut spans = spans;
    all.append(&mut spans);
    assert(spans_view(all@) =~= head + middle);
    let remaining = (width as usize).saturating_sub(content_len.saturating_add(4));
    let ghost before = spans_view(all@);
    push_span(&mut all, span(spaces(remaining + 2), surface_style));
    assert(remaining == sat_sub(width as int, content_len + 4));
    assert(spans_view(all@) =~~= seq![span_of("  "@, surface_style)] + middle + seq![
        span_of(repeat_char(' ', (sat_sub(width as int, content_len + 4) + 2) as nat), surface_style),
    ]);
    line(all)
}

/// Render a bash output message with surface background.
pub fn render_bash_output(msg: &BashOutputMessage, width: u16) -> (out: Vec<StyledLine>)
    ensures
        lines_view(out@) == bash_output_lines(msg.cwd@, msg.command@, msg.output@, msg.exit_code, width),
{
    let surface_style = style_plain().bg(surface());
    let mut out: Vec<StyledLine> = Vec::new();
    push_line(&mut out, blank_line());
    push_line(&mut out, filled(spaces(width as usize), surface_style));
    let mut mark = String::new();
    if msg.exit_code == 0 {
        append_str(&mut mark, "✓");
    } else {
        append_str(&mut mark, "✗ (");
        push_signed_decimal(&mut mark, msg.exit_code as i64);
        append_str(&mut mark, ")");
    }
    let status_len: usize = chars_of(mark.as_str()).len();
    let exit_part = if msg.exit_code == 0 {
        span(mark, style_fg(success()).bg(surface()))
    } else {
        span(mark, style_fg(error()).bg(surface()))
    };
    let cwd_len = msg.cwd.as_str().len().saturating_add(1).saturating_add(status_len);
    let mut cwd_spans: Vec<StyledSpan> = Vec::new();
    push_span(&mut cwd_spans, span(msg.cwd.clone(), style_fg(muted()).bg(surface())));
    push_span(&mut cwd_spans, span_str(" ", surface_style));
    push_span(&mut cwd_spans, exit_part);
    proof {
        let exact = byte_len(msg.cwd@) + 1 + status_len;
        assert(sat_sub(width as int, cwd_len + 4) == sat_sub(width as int, exact + 4));
    }
    push_line(&mut out, pad_spans(cwd_spans, cwd_len, width));
    let cmd_len = msg.command.as_str().len().saturating_add(2);
    let mut cmd_spans: Vec<StyledSpan> = Vec::new();
    push_span(&mut cmd_spans, span_str("> ", style_fg(primary()).bold().bg(surface())));
    push_span(&mut cmd_spans, span(msg.command.clone(), style_fg(foreground()).bg(surface())));
    push_line(&mut out, pad_spans(cmd_spans, cmd_len, width));
    push_line(&mut out, filled(spaces(width as usize), surface_style));
    let ghost head = lines_view(out@);
    let ls = lines_of(msg.output.as_str());
    let ghost tl = strings_view(ls@);
    let ghost body = Seq::new(
        tl.len(),
        |i: int|
            padded_line(
                seq![span_of(tl[i], with_bg(fg_style(foreground()), surface()))],
                byte_len(tl[i]) as int,
                width,
            ),
    );
    for k in 0..ls.len()
        invariant
            tl == strings_view(ls@),
            body.len() == tl.len(),
            forall|i: int| 0 <= i < tl.len() ==> #[trigger] body[i] == padded_line(
                seq![span_of(tl[i], with_bg(fg_style(foreground()), surface()))],
                byte_len(tl[i]) as int,
                width,
            ),
            lines_view(out@) == head + body.take(k as int),
    {
        let mut spans: Vec<StyledSpan> = Vec::new();
        push_span(&mut spans, span(ls[k].clone(), style_fg(foreground()).bg(surface())));
        let n = ls[k].as_str().len();
        assert(spans_view(spans@) =~~= seq![span_of(tl[k as int], with_bg(fg_style(foreground()), surface()))]);
        push_line(&mut out, pad_spans(spans, n, width));
        assert(lines_view(out@) =~~= head + body.take(k + 1));
    }
    push_line(&mut out, filled(spaces(width as usize), surface_style));
    assert(body.take(ls.len() as int) =~= body);
    assert(lines_view(out@) =~~= bash_output_lines(msg.cwd@, msg.command@, msg.output@, msg.exit_code, width));
    out
}

/// The number of columns the spans take: one per character.
pub open spec fn spans_width(spans: Seq<SpanView>) -> int
    decreases spans.len(),
{
    if spans.len() == 0 {
        0
    } else {
        spans_width(spans.drop_last()) + spans.last().text.len()
    }
}

/// The number of columns a line takes.
pub open spec fn line_width(l: LineView) -> int {
    spans_width(l.spans)
}

proof fn lemma_spans_width_concat(a: Seq<SpanView>, b: Seq<SpanView>)
    ensures
        spans_width(a + b) == spans_width(a) + spans_width(b),
    decreases b.len(),
{
    if b.len() > 0 {
        lemma_spans_width_concat(a, b.drop_last());
        assert((a + b).drop_last() =~= a + b.drop_last());
        assert((a + b).last() == b.last());
    } else {
        assert(a + b =~= a);
    }
}

proof fn lemma_one_span_width(sp: SpanView)
    ensures
        spans_width(seq![sp]) == sp.text.len(),
{
    assert(seq![sp].drop_last() =~= Seq::<SpanView>::empty());
    assert(spans_width(Seq::<SpanView>::empty()) == 0);
}

proof fn lemma_three_spans_width(a: SpanView, b: SpanView, c: SpanView)
    ensures
        spans_width(seq![a, b, c]) == a.text.len() + b.text.len() + c.text.len(),
{
    lemma_one_span_width(a);
    lemma_one_span_width(b);
    lemma_one_span_width(c);
    lemma_spans_width_concat(seq![a], seq![b]);
    lemma_spans_width_concat(seq![a, b], seq![c]);
    assert(seq![a, b] =~= seq![a] + seq![b]);
    assert(seq![a, b, c] =~= seq![a, b] + seq![c]);
}

/// An ASCII text takes one byte per character.
proof fn lemma_ascii_byte_len(s: Seq<char>)
    requires
        vstd::utf8::is_ascii_chars(s),
        s.len() <= usize::MAX,
    ensures
        byte_len(s) == s.len(),
{
    vstd::utf8::is_ascii_chars_encode_utf8(s);
}

/// A padded line whose content is measured by its columns takes the whole
/// width when the content fits beside the padding.
proof fn lemma_padded_line_width(spans: Seq<SpanView>, width: u16)
    requires
        spans_width(spans) + 4 <= width,
    ensures
        line_width(padded_line(spans, spans_width(spans), width)) == width,
{
    reveal_strlit("  ");
    let r = (sat_sub(width as int, spans_width(spans) + 4) + 2) as nat;
    let head = seq![span_of("  "@, surface_style())];
    let tail = seq![span_of(repeat_char(' ', r), surface_style())];
    lemma_spans_width_concat(head, spans);
    lemma_spans_width_concat(head + spans, tail);
    lemma_one_span_width(head[0]);
    lemma_one_span_width(tail[0]);
    assert(head == seq![head[0]]);
    assert(tail == seq![tail[0]]);
}

/// The panel of a shell command is padded to the full width: every line but
/// the first (the margin) takes the width, in columns, when its text is ASCII
/// and fits beside the padding. The padding lines always do; the line of the
/// working directory counts its exit status mark one column per character.
pub proof fn law_bash_output_fills_width(
    cwd: Seq<char>,
    command: Seq<char>,
    output: Seq<char>,
    exit_code: i32,
    width: u16,
)
    ensures
        ({
            let lines = bash_output_lines(cwd, command, output, exit_code, width);
            let outs = std_lines(output);
            &&& lines.len() == outs.len() + 6
            &&& line_width(lines[1]) == width
            &&& line_width(lines[4]) == width
            &&& line_width(lines[lines.len() - 1]) == width
            &&& vstd::utf8::is_ascii_chars(cwd) && cwd.len() + 1 + exit_mark(exit_code).text.len() + 4 <= width
                ==> line_width(lines[2]) == width
            &&& vstd::utf8::is_ascii_chars(command) && command.len() + 6 <= width ==> line_width(lines[3])
                == width
            &&& forall|j: int|
                0 <= j < outs.len() && vstd::utf8::is_ascii_chars(#[trigger] outs[j]) && outs[j].len() + 4
                    <= width ==> line_width(lines[5 + j]) == width
        }),
{
    let lines = bash_output_lines(cwd, command, output, exit_code, width);
    let outs = std_lines(output);
    let pad = filled_line(repeat_char(' ', width as nat), surface_style());
    lemma_one_span_width(pad.spans[0]);
    assert(pad.spans == seq![pad.spans[0]]);
    assert(lines[1] == pad);
    assert(lines[4] == pad);
    assert(lines[lines.len() - 1] == pad);
    if vstd::utf8::is_ascii_chars(cwd) && cwd.len() + 1 + exit_mark(exit_code).text.len() + 4 <= width {
        reveal_strlit(" ");
        let spans = seq![
            span_of(cwd, with_bg(fg_style(muted()), surface())),
            span_of(" "@, surface_style()),
            exit_mark(exit_code),
        ];
        lemma_three_spans_width(spans[0], spans[1], spans[2]);
        assert(spans =~= seq![spans[0], spans[1], spans[2]]);
        lemma_ascii_byte_len(cwd);
        lemma_padded_line_width(spans, width);
        assert(lines[2] == padded_line(spans, byte_len(cwd) + 1 + exit_mark(exit_code).text.len(), width));
    }
    if vstd::utf8::is_ascii_chars(command) && command.len() + 6 <= width {
        reveal_strlit("> ");
        let spans = seq![
            span_of("> "@, with_bg(with_bold(fg_style(primary())), surface())),
            span_of(command, with_bg(fg_style(foreground()), surface())),
        ];
        lemma_one_span_width(spans[0]);
        lemma_one_span_width(spans[1]);
        lemma_spans_width_concat(seq![spans[0]], seq![spans[1]]);
        assert(spans =~= seq![spans[0]] + seq![spans[1]]);
        lemma_ascii_byte_len(command);
        lemma_padded_line_width(spans, width);
        assert(lines[3] == padded_line(spans, 2 + byte_len(command), width));
    }
    assert forall|j: int|
        0 <= j < outs.len() && vstd::utf8::is_ascii_chars(#[trigger] outs[j]) && outs[j].len() + 4
            <= width implies line_width(lines[5 + j]) == width by {
        let spans = seq![span_of(outs[j], with_bg(fg_style(foreground()), surface()))];
        lemma_one_span_width(spans[0]);
        assert(spans == seq![spans[0]]);
        lemma_ascii_byte_len(outs[j]);
        lemma_padded_line_width(spans, width);
        assert(lines[5 + j] == padded_line(spans, byte_len(outs[j]) as int, width));
    }
}

/// The text of a finished compaction: the token counts before and after, in thousands.
pub open spec fn compacted_text(old_tokens: u64, new_tokens: u64) -> Seq<char> {
    "Compacted: "@ + decimal((old_tokens / 1000) as nat) + "k → "@ + decimal((new_tokens / 1000) as nat) + "k tokens"@
}

/// The layout of a compaction entry: a blank line, then the spinner frame (in
/// the gradient colour chosen by `color_index`) while it runs, the error if it
/// failed, or the token counts before and after (0 when unknown).
pub open spec fn compact_lines(
    in_progress: bool,
    error_text: Option<Seq<char>>,
    old_tokens: Option<u64>,
    new_tokens: Option<u64>,
    spinner_frame: Seq<char>,
    color_index: usize,
) -> Seq<LineView> {
    let body = if in_progress {
        line_of(
            seq![
                span_of(spinner_frame + " "@, fg_style(crate::style::gradient()[(color_index % 5) as int])),
                span_of("Compacting conversation history..."@, plain()),
            ],
        )
    } else {
        match error_text {
            Some(e) => line_of(
                seq![span_of("✗ "@, fg_style(error())), span_of("Error: "@ + e, fg_style(error()))],
            ),
            None => {
                let old_count = match old_tokens { Some(n) => n, None => 0 };
                let new_count = match new_tokens { Some(n) => n, None => 0 };
                line_of(
                    seq![
                        span_of("✓ "@, fg_style(success())),
                        span_of(compacted_text(old_count, new_count), fg_style(success())),
                    ],
                )
            },
        }
    };
    seq![empty_line(), body]
}

/// Render a compact message.
pub fn render_compact(msg: &CompactMessage, spinner_frame: &str, color_index: usize) -> (out: Vec<StyledLine>)
    ensures
        lines_view(out@) == compact_lines(
            msg.in_progress,
            crate::types::opt_str(msg.error),
            msg.old_tokens,
            msg.new_tokens,
            spinner_frame@,
            color_index,
        ),
{
    let mut spans: Vec<StyledSpan> = Vec::new();
    if msg.in_progress {
        let color = crate::style::gradient_color(color_index % 5);
        let mut t = String::new();
        append_str(&mut t, spinner_frame);
        append_str(&mut t, " ");
        push_span(&mut spans, span(t, style_fg(color)));
        push_span(&mut spans, span_str("Compacting conversation history...", style_plain()));
    } else if let Some(e) = &msg.error {
        push_span(&mut spans, span_str("✗ ", style_fg(error())));
        let mut t = String::new();
        append_str(&mut t, "Error: ");
        append_str(&mut t, e.as_str());
        push_span(&mut spans, span(t, style_fg(error())));
    } else {
        let old_count = match msg.old_tokens { Some(n) => n, None => 0 };
        let new_count = match msg.new_tokens { Some(n) => n, None => 0 };
        push_span(&mut spans, span_str("✓ ", style_fg(success())));
        let mut t = String::new();
        append_str(&mut t, "Compacted: ");
        push_decimal(&mut t, old_count / 1000);
        append_str(&mut t, "k → ");
        push_decimal(&mut t, new_count / 1000);
        append_str(&mut t, "k tokens");
        push_span(&mut spans, span(t, style_fg(success())));
    }
    let mut out: Vec<StyledLine> = Vec::new();
    push_line(&mut out, blank_line());
    push_line(&mut out, line(spans));
    assert(lines_view(out@) =~~= compact_lines(
        msg.in_progress,
        crate::types::opt_str(msg.error),
        msg.old_tokens,
        msg.new_tokens,
        spinner_frame@,
        color_index,
    ));
    out
}

} // verus!
