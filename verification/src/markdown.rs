//! Markdown rendering for assistant messages: the parser's events are turned
//! into styled lines.
use vstd::prelude::*;
use crate::style::{
    accent, blank_line, empty_line, foreground, line, line_of, lines_view, muted, plain, primary,
    push_line, push_span, span, span_of, spans_view, style_fg, style_plain, success, surface,
    with_bg, with_bold, with_fg, with_italic, LineView, SpanView, StyledLine, StyledSpan, TextStyle,
};
use crate::text::{append_str, lines_of, push_char, repeat_char, std_lines, strings_view};

verus! {

/// One event of the Markdown parser, as far as rendering distinguishes them.
#[derive(Debug)]
pub enum MdEvent {
    StartHeading(u8),
    StartCodeBlock,
    StartStrong,
    StartEmphasis,
    StartList,
    StartItem,
    StartLink,
    StartBlockQuote,
    EndHeading,
    EndParagraph,
    EndCodeBlock,
    EndStrong,
    EndEmphasis,
    EndList,
    EndItem,
    EndLink,
    EndBlockQuote,
    Text(String),
    Code(String),
    SoftBreak,
    HardBreak,
    Rule,
    Other,
}

/// The value of a Markdown event.
pub enum MdEventView {
    StartHeading(u8),
    StartCodeBlock,
    StartStrong,
    StartEmphasis,
    StartList,
    StartItem,
    StartLink,
    StartBlockQuote,
    EndHeading,
    EndParagraph,
    EndCodeBlock,
    EndStrong,
    EndEmphasis,
    EndList,
    EndItem,
    EndLink,
    EndBlockQuote,
    Text(Seq<char>),
    Code(Seq<char>),
    SoftBreak,
    HardBreak,
    Rule,
    Other,
}

impl View for MdEvent {
    type V = MdEventView;

    open spec fn view(&self) -> MdEventView {
        match self {
            MdEvent::StartHeading(l) => MdEventView::StartHeading(*l),
            MdEvent::StartCodeBlock => MdEventView::StartCodeBlock,
            MdEvent::StartStrong => MdEventView::StartStrong,
            MdEvent::StartEmphasis => MdEventView::StartEmphasis,
            MdEvent::StartList => MdEventView::StartList,
            MdEvent::StartItem => MdEventView::StartItem,
            MdEvent::StartLink => MdEventView::StartLink,
            MdEvent::StartBlockQuote => MdEventView::StartBlockQuote,
            MdEvent::EndHeading => MdEventView::EndHeading,
            MdEvent::EndParagraph => MdEventView::EndParagraph,
            MdEvent::EndCodeBlock => MdEventView::EndCodeBlock,
            MdEvent::EndStrong => MdEventView::EndStrong,
            MdEvent::EndEmphasis => MdEventView::EndEmphasis,
            MdEvent::EndList => MdEventView::EndList,
            MdEvent::EndItem => MdEventView::EndItem,
            MdEvent::EndLink => MdEventView::EndLink,
            MdEvent::EndBlockQuote => MdEventView::EndBlockQuote,
            MdEvent::Text(s) => MdEventView::Text(s@),
            MdEvent::Code(s) => MdEventView::Code(s@),
            MdEvent::SoftBreak => MdEventView::SoftBreak,
            MdEvent::HardBreak => MdEventView::HardBreak,
            MdEvent::Rule => MdEventView::Rule,
            MdEvent::Other => MdEventView::Other,
        }
    }
}

/// The values of a sequence of events.
pub open spec fn md_events_view(s: Seq<MdEvent>) -> Seq<MdEventView> {
    s.map_values(|e: MdEvent| e@)
}

// ---------------------------------------------------------------- parser

/// A Markdown parser event.
#[verifier::external_type_specification]
#[verifier::external_body]
pub struct ExParserEvent<'a>(pulldown_cmark::Event<'a>);

/// A Markdown start tag.
#[verifier::external_type_specification]
#[verifier::external_body]
pub struct ExParserTag<'a>(pulldown_cmark::Tag<'a>);

/// A Markdown end tag.
#[verifier::external_type_specification]
#[verifier::external_body]
pub struct ExParserTagEnd(pulldown_cmark::TagEnd);

/// The events pulldown-cmark's parser yields for a text, in order.
pub uninterp spec fn markdown_parse(content: Seq<char>) -> Seq<MdEventView>;

/// `pulldown_cmark::Parser::new(content)`, read to the end, each event
/// converted to its kind (with its heading level or text).
#[verifier::external_body]
fn markdown_events(content: &str) -> (evs: Vec<MdEvent>)
    ensures
        md_events_view(evs@) == markdown_parse(content@),
{
    pulldown_cmark::Parser::new(content).map(event_kind).collect()
}

/// The kind of a parser event.
#[verifier::external_body]
fn event_kind(e: pulldown_cmark::Event<'_>) -> MdEvent {
    match e {
        pulldown_cmark::Event::Start(tag) => start_kind(tag),
        pulldown_cmark::Event::End(tag) => end_kind(tag),
        pulldown_cmark::Event::Text(t) => MdEvent::Text(t.to_string()),
        pulldown_cmark::Event::Code(t) => MdEvent::Code(t.to_string()),
        pulldown_cmark::Event::SoftBreak => MdEvent::SoftBreak,
        pulldown_cmark::Event::HardBreak => MdEvent::HardBreak,
        pulldown_cmark::Event::Rule => MdEvent::Rule,
        _ => MdEvent::Other,
    }
}

/// The kind of a start tag.
#[verifier::external_body]
fn start_kind(tag: pulldown_cmark::Tag<'_>) -> MdEvent {
    match tag {
        pulldown_cmark::Tag::Heading { level, .. } => MdEvent::StartHeading(level as u8),
        pulldown_cmark::Tag::CodeBlock(_) => MdEvent::StartCodeBlock,
        pulldown_cmark::Tag::Strong => MdEvent::StartStrong,
        pulldown_cmark::Tag::Emphasis => MdEvent::StartEmphasis,
        pulldown_cmark::Tag::List(_) => MdEvent::StartList,
        pulldown_cmark::Tag::Item => MdEvent::StartItem,
        pulldown_cmark::Tag::Link { .. } => MdEvent::StartLink,
        pulldown_cmark::Tag::BlockQuote(_) => MdEvent::StartBlockQuote,
        _ => MdEvent::Other,
    }
}

/// The kind of an end tag.
#[verifier::external_body]
fn end_kind(tag: pulldown_cmark::TagEnd) -> MdEvent {
    match tag {
        pulldown_cmark::TagEnd::Heading(_) => MdEvent::EndHeading,
        pulldown_cmark::TagEnd::Paragraph => MdEvent::EndParagraph,
        pulldown_cmark::TagEnd::CodeBlock => MdEvent::EndCodeBlock,
        pulldown_cmark::TagEnd::Strong => MdEvent::EndStrong,
        pulldown_cmark::TagEnd::Emphasis => MdEvent::EndEmphasis,
        pulldown_cmark::TagEnd::List(_) => MdEvent::EndList,
        pulldown_cmark::TagEnd::Item => MdEvent::EndItem,
        pulldown_cmark::TagEnd::Link => MdEvent::EndLink,
        pulldown_cmark::TagEnd::BlockQuote(_) => MdEvent::EndBlockQuote,
        _ => MdEvent::Other,
    }
}

// ---------------------------------------------------------------- rendering

/// The style of running text: headings of level 1 to 3 are bold in the
/// primary, accent and success colours, deeper headings bold; outside headings
/// the strong and emphasis flags make it bold and italic.
pub open spec fn text_style(bold: bool, italic: bool, heading: Option<u8>) -> TextStyle {
    match heading {
        Some(level) => if level == 1 {
            with_bold(with_fg(plain(), primary()))
        } else if level == 2 {
            with_bold(with_fg(plain(), accent()))
        } else if level == 3 {
            with_bold(with_fg(plain(), success()))
        } else if 4 <= level <= 6 {
            with_bold(plain())
        } else {
            plain()
        },
        None => {
            let b = if bold { with_bold(plain()) } else { plain() };
            if italic { with_italic(b) } else { b }
        },
    }
}

/// Build a text style based on current formatting state.
pub fn build_text_style(bold: bool, italic: bool, heading_level: Option<u8>) -> (s: TextStyle)
    ensures
        s == text_style(bold, italic, heading_level),
{
    let mut style = style_plain();
    if let Some(level) = heading_level {
        if level == 1 {
            style = style.fg(primary()).bold();
        } else if level == 2 {
            style = style.fg(accent()).bold();
        } else if level == 3 {
            style = style.fg(success()).bold();
        } else if 4 <= level && level <= 6 {
            style = style.bold();
        }
    } else {
        if bold {
            style = style.bold();
        }
        if italic {
            style = style.italic();
        }
    }
    style
}

/// The rendering state between two events.
pub struct MdState {
    pub lines: Seq<LineView>,
    pub current: Seq<SpanView>,
    pub bold: bool,
    pub italic: bool,
    pub in_code: bool,
    pub heading: Option<u8>,
    pub depth: nat,
}

/// The state before the first event.
pub open spec fn md_start() -> MdState {
    MdState {
        lines: Seq::empty(),
        current: Seq::empty(),
        bold: false,
        italic: false,
        in_code: false,
        heading: None,
        depth: 0,
    }
}

/// Ends the line being built, if it has spans.
pub open spec fn flush(st: MdState) -> MdState {
    if st.current.len() > 0 {
        MdState { lines: st.lines.push(line_of(st.current)), current: Seq::empty(), ..st }
    } else {
        st
    }
}

/// `st` with one more span on the line being built.
pub open spec fn add_span(st: MdState, s: SpanView) -> MdState {
    MdState { current: st.current.push(s), ..st }
}

/// The style of code.
pub open spec fn code_style() -> TextStyle {
    with_fg(with_bg(plain(), surface()), foreground())
}

/// The bullet of a list item at nesting depth `depth`.
pub open spec fn bullet(depth: nat) -> Seq<char> {
    repeat_char(' ', 2 * (if depth >= 1 { (depth - 1) as nat } else { 0 })) + "• "@
}

/// The horizontal rule.
pub open spec fn rule_text() -> Seq<char> {
    repeat_char('─', 32)
}

/// The lines of a code block's text, each on the code background.
pub open spec fn code_lines(text: Seq<char>) -> Seq<LineView> {
    std_lines(text).map_values(|l: Seq<char>| line_of(seq![span_of(l, code_style())]))
}

/// The state after one event.
pub open spec fn md_step(st: MdState, ev: MdEventView) -> MdState {
    match ev {
        MdEventView::StartHeading(level) => MdState { heading: Some(level), ..st },
        MdEventView::StartCodeBlock => flush(MdState { in_code: true, ..st }),
        MdEventView::StartStrong => MdState { bold: true, ..st },
        MdEventView::StartEmphasis => MdState { italic: true, ..st },
        MdEventView::StartList => MdState { depth: st.depth + 1, ..st },
        MdEventView::StartItem => add_span(flush(st), span_of(bullet(st.depth), with_fg(plain(), primary()))),
        MdEventView::StartLink => add_span(st, span_of("["@, with_fg(plain(), accent()))),
        MdEventView::StartBlockQuote => add_span(flush(st), span_of("│ "@, with_fg(plain(), muted()))),
        MdEventView::EndHeading => {
            let f = flush(MdState { heading: None, ..st });
            MdState { lines: f.lines.push(empty_line()), ..f }
        },
        MdEventView::EndParagraph => flush(st),
        MdEventView::EndCodeBlock => MdState { in_code: false, ..st },
        MdEventView::EndStrong => MdState { bold: false, ..st },
        MdEventView::EndEmphasis => MdState { italic: false, ..st },
        MdEventView::EndList => MdState {
            depth: if st.depth >= 1 { (st.depth - 1) as nat } else { 0 },
            ..st
        },
        MdEventView::EndItem => flush(st),
        MdEventView::EndLink => add_span(st, span_of("]"@, with_fg(plain(), accent()))),
        MdEventView::EndBlockQuote => flush(st),
        MdEventView::Text(t) => if st.in_code {
            MdState { lines: st.lines + code_lines(t), ..st }
        } else {
            add_span(st, span_of(t, text_style(st.bold, st.italic, st.heading)))
        },
        MdEventView::Code(c) => add_span(st, span_of("`"@ + c + "`"@, code_style())),
        MdEventView::SoftBreak => add_span(st, span_of(" "@, plain())),
        MdEventView::HardBreak => flush(st),
        MdEventView::Rule => {
            let f = flush(st);
            MdState { lines: f.lines.push(line_of(seq![span_of(rule_text(), with_fg(plain(), muted()))])), ..f }
        },
        MdEventView::Other => st,
    }
}

/// The state after a sequence of events.
pub open spec fn md_fold(evs: Seq<MdEventView>) -> MdState
    decreases evs.len(),
{
    if evs.len() == 0 {
        md_start()
    } else {
        md_step(md_fold(evs.drop_last()), evs.last())
    }
}

/// The lines a sequence of events renders to: the last line being built is
/// ended at the end.
pub open spec fn markdown_lines(evs: Seq<MdEventView>) -> Seq<LineView> {
    flush(md_fold(evs)).lines
}

/// The exec form of the rendering state.
struct Renderer {
    lines: Vec<StyledLine>,
    current: Vec<StyledSpan>,
    bold: bool,
    italic: bool,
    in_code: bool,
    heading: Option<u8>,
    depth: usize,
}

impl Renderer {
    spec fn state(&self) -> MdState {
        MdState {
            lines: lines_view(self.lines@),
            current: spans_view(self.current@),
            bold: self.bold,
            italic: self.italic,
            in_code: self.in_code,
            heading: self.heading,
            depth: self.depth as nat,
        }
    }

    fn flush(&mut self)
        ensures
            final(self).state() == flush(old(self).state()),
            final(self).depth == old(self).depth,
    {
        if self.current.len() > 0 {
            let mut spans: Vec<StyledSpan> = Vec::new();
            std::mem::swap(&mut spans, &mut self.current);
            push_line(&mut self.lines, line(spans));
            assert(spans_view(self.current@) =~= Seq::<SpanView>::empty());
        }
    }

    fn add(&mut self, s: StyledSpan)
        ensures
            final(self).state() == add_span(old(self).state(), s@),
            final(self).depth == old(self).depth,
    {
        push_span(&mut self.current, s);
    }
}

/// The bullet of a list item at nesting depth `depth`.
fn bullet_text(depth: usize) -> (s: String)
    ensures
        s@ == bullet(depth as nat),
{
    let n: usize = if depth >= 1 { depth - 1 } else { 0 };
    let mut s = String::new();
    for i in 0..n
        invariant
            s@ == repeat_char(' ', 2 * i as nat),
    {
        push_char(&mut s, ' ');
        push_char(&mut s, ' ');
        assert(s@ =~= repeat_char(' ', 2 * (i + 1) as nat));
    }
    append_str(&mut s, "• ");
    s
}

/// The horizontal rule.
fn rule_string() -> (s: String)
    ensures
        s@ == rule_text(),
{
    let mut s = String::new();
    for i in 0..32usize
        invariant
            s@ == repeat_char('─', i as nat),
    {
        push_char(&mut s, '─');
        assert(s@ =~= repeat_char('─', (i + 1) as nat));
    }
    s
}

/// `` `code` ``.
fn backticked(code: &str) -> (s: String)
    ensures
        s@ == "`"@ + code@ + "`"@,
{
    let mut s = String::new();
    append_str(&mut s, "`");
    append_str(&mut s, code);
    append_str(&mut s, "`");
    s
}

/// The lines of a code block's text.
fn code_block_lines(t: &str) -> (out: Vec<StyledLine>)
    ensures
        lines_view(out@) == code_lines(t@),
{
    let ls = lines_of(t);
    let ghost tl = strings_view(ls@);
    let mut out: Vec<StyledLine> = Vec::new();
    for k in 0..ls.len()
        invariant
            tl == strings_view(ls@),
            lines_view(out@) == tl.take(k as int).map_values(
                |l: Seq<char>| line_of(seq![span_of(l, code_style())]),
            ),
    {
        let mut spans: Vec<StyledSpan> = Vec::new();
        push_span(&mut spans, span(ls[k].clone(), style_plain().bg(surface()).fg(foreground())));
        assert(spans_view(spans@) =~= seq![span_of(tl[k as int], code_style())]);
        push_line(&mut out, line(spans));
        assert(tl.take(k + 1).map_values(|l: Seq<char>| line_of(seq![span_of(l, code_style())]))
            =~= tl.take(k as int).map_values(
            |l: Seq<char>| line_of(seq![span_of(l, code_style())]),
        ).push(line_of(seq![span_of(tl[k as int], code_style())])));
    }
    assert(tl.take(ls.len() as int) == tl);
    out
}

/// Renders parser events to styled lines.
pub fn render_markdown_events(events: &Vec<MdEvent>) -> (out: Vec<StyledLine>)
    ensures
        lines_view(out@) == markdown_lines(md_events_view(events@)),
{
    let ghost evs = md_events_view(events@);
    let mut r = Renderer {
        lines: Vec::new(),
        current: Vec::new(),
        bold: false,
        italic: false,
        in_code: false,
        heading: None,
        depth: 0,
    };
    assert(lines_view(r.lines@) =~= Seq::<LineView>::empty());
    assert(spans_view(r.current@) =~= Seq::<SpanView>::empty());
    for i in 0..events.len()
        invariant
            evs == md_events_view(events@),
            r.state() == md_fold(evs.take(i as int)),
            r.depth <= i,
    {
        assert(evs.take(i + 1).drop_last() == evs.take(i as int));
        assert(evs.take(i + 1).last() == events@[i as int]@);
        match &events[i] {
            MdEvent::StartHeading(level) => {
                r.heading = Some(*level);
            },
            MdEvent::StartCodeBlock => {
                r.in_code = true;
                r.flush();
            },
            MdEvent::StartStrong => {
                r.bold = true;
            },
            MdEvent::StartEmphasis => {
                r.italic = true;
            },
            MdEvent::StartList => {
                r.depth = r.depth + 1;
            },
            MdEvent::StartItem => {
                let d = r.depth;
                r.flush();
                r.add(span(bullet_text(d), style_fg(primary())));
            },
            MdEvent::StartLink => {
                r.add(span("[".to_string(), style_fg(accent())));
            },
            MdEvent::StartBlockQuote => {
                r.flush();
                r.add(span("│ ".to_string(), style_fg(muted())));
            },
            MdEvent::EndHeading => {
                r.heading = None;
                r.flush();
                push_line(&mut r.lines, blank_line());
            },
            MdEvent::EndParagraph => {
                r.flush();
            },
            MdEvent::EndCodeBlock => {
                r.in_code = false;
            },
            MdEvent::EndStrong => {
                r.bold = false;
            },
            MdEvent::EndEmphasis => {
                r.italic = false;
            },
            MdEvent::EndList => {
                r.depth = if r.depth >= 1 { r.depth - 1 } else { 0 };
            },
            MdEvent::EndItem => {
                r.flush();
            },
            MdEvent::EndLink => {
                r.add(span("]".to_string(), style_fg(accent())));
            },
            MdEvent::EndBlockQuote => {
                r.flush();
            },
            MdEvent::Text(t) => {
                if r.in_code {
                    let mut block = code_block_lines(t.as_str());
                    let ghost before = r.lines@;
                    let ghost added = block@;
                    r.lines.append(&mut block);
                    assert(lines_view(r.lines@) =~= lines_view(before) + lines_view(added));
                } else {
                    let style = build_text_style(r.bold, r.italic, r.heading);
                    r.add(span(t.clone(), style));
                }
            },
            MdEvent::Code(c) => {
                r.add(span(backticked(c.as_str()), style_plain().bg(surface()).fg(foreground())));
            },
            MdEvent::SoftBreak => {
                r.add(span(" ".to_string(), style_plain()));
            },
            MdEvent::HardBreak => {
                r.flush();
            },
            MdEvent::Rule => {
                r.flush();
                let mut spans: Vec<StyledSpan> = Vec::new();
                push_span(&mut spans, span(rule_string(), style_fg(muted())));
                assert(spans_view(spans@) =~= seq![span_of(rule_text(), with_fg(plain(), muted()))]);
                push_line(&mut r.lines, line(spans));
            },
            MdEvent::Other => {},
        }
    }
    assert(evs.take(events.len() as int) == evs);
    r.flush();
    r.lines
}

/// Render markdown content to styled lines.
pub fn render_markdown(content: &str) -> (out: Vec<StyledLine>)
    ensures
        lines_view(out@) == markdown_lines(markdown_parse(content@)),
{
    let events = markdown_events(content);
    render_markdown_events(&events)
}


// ---------------------------------------------------------------- laws

/// Whether an emphasis is open after the events `evs`: the last emphasis
/// event among them starts one.
pub open spec fn emphasis_open(evs: Seq<MdEventView>) -> bool
    decreases evs.len(),
{
    if evs.len() == 0 {
        false
    } else {
        match evs.last() {
            MdEventView::StartEmphasis => true,
            MdEventView::EndEmphasis => false,
            _ => emphasis_open(evs.drop_last()),
        }
    }
}

/// Whether a strong span is open after the events `evs`: the last strong
/// event among them starts one.
pub open spec fn strong_open(evs: Seq<MdEventView>) -> bool
    decreases evs.len(),
{
    if evs.len() == 0 {
        false
    } else {
        match evs.last() {
            MdEventView::StartStrong => true,
            MdEventView::EndStrong => false,
            _ => strong_open(evs.drop_last()),
        }
    }
}

/// Emphasis lasts from its start to its end: after any events, the renderer
/// writes in italics exactly when an emphasis is open, and text that a Text
/// event adds outside code and headings is italic exactly then. Text that
/// follows the end of an emphasis, with no new start, is not italic. Strong
/// text and bold go the same way.
pub proof fn law_emphasis_ends_with_its_end_event(evs: Seq<MdEventView>, t: Seq<char>)
    ensures
        md_fold(evs).italic == emphasis_open(evs),
        md_fold(evs).bold == strong_open(evs),
        !md_fold(evs).in_code && md_fold(evs).heading is None ==> ({
            let after = md_fold(evs.push(MdEventView::Text(t)));
            &&& after.current.len() > 0
            &&& after.current.last().text == t
            &&& after.current.last().style.italic == emphasis_open(evs)
            &&& after.current.last().style.bold == strong_open(evs)
        }),
    decreases evs.len(),
{
    if evs.len() > 0 {
        law_emphasis_ends_with_its_end_event(evs.drop_last(), t);
        let st = md_fold(evs.drop_last());
        assert(md_fold(evs) == md_step(st, evs.last()));
    }
    let e = evs.push(MdEventView::Text(t));
    assert(e.drop_last() =~= evs);
    assert(e.last() == MdEventView::Text(t));
}

} // verus!
