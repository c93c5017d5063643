//! Styled text as the terminal UI draws it: colours, styles, spans and lines,
//! and the colour theme.
use vstd::prelude::*;

verus! {

/// A 24-bit colour.
#[derive(Debug, Clone, Copy, PartialEq, Eq, Structural)]
pub struct Rgb {
    pub r: u8,
    pub g: u8,
    pub b: u8,
}

/// How a piece of text is drawn: colours that are not set are inherited.
#[derive(Debug, Clone, Copy, PartialEq, Eq, Structural)]
pub struct TextStyle {
    pub fg: Option<Rgb>,
    pub bg: Option<Rgb>,
    pub bold: bool,
    pub italic: bool,
}

/// A run of text in one style.
#[derive(Debug)]
pub struct StyledSpan {
    pub text: String,
    pub style: TextStyle,
}

/// One line of styled text; the line's own style lies under its spans'.
#[derive(Debug)]
pub struct StyledLine {
    pub spans: Vec<StyledSpan>,
    pub style: TextStyle,
}

/// The value of a span.
#[verifier::ext_equal]
pub struct SpanView {
    pub text: Seq<char>,
    pub style: TextStyle,
}

/// The value of a line.
#[verifier::ext_equal]
pub struct LineView {
    pub spans: Seq<SpanView>,
    pub style: TextStyle,
}

impl View for StyledSpan {
    type V = SpanView;

    open spec fn view(&self) -> SpanView {
        SpanView { text: self.text@, style: self.style }
    }
}

/// The values of a sequence of spans.
pub open spec fn spans_view(s: Seq<StyledSpan>) -> Seq<SpanView> {
    s.map_values(|x: StyledSpan| x@)
}

impl View for StyledLine {
    type V = LineView;

    open spec fn view(&self) -> LineView {
        LineView { spans: spans_view(self.spans@), style: self.style }
    }
}

/// The values of a sequence of lines.
pub open spec fn lines_view(s: Seq<StyledLine>) -> Seq<LineView> {
    s.map_values(|x: StyledLine| x@)
}

/// A colour from its components.
pub open spec fn rgb(r: u8, g: u8, b: u8) -> Rgb {
    Rgb { r, g, b }
}

/// No colours and no emphasis.
pub open spec fn plain() -> TextStyle {
    TextStyle { fg: None, bg: None, bold: false, italic: false }
}

/// `s` with the foreground colour `c`.
pub open spec fn with_fg(s: TextStyle, c: Rgb) -> TextStyle {
    TextStyle { fg: Some(c), ..s }
}

/// `s` with the background colour `c`.
pub open spec fn with_bg(s: TextStyle, c: Rgb) -> TextStyle {
    TextStyle { bg: Some(c), ..s }
}

/// `s`, bold.
pub open spec fn with_bold(s: TextStyle) -> TextStyle {
    TextStyle { bold: true, ..s }
}

/// `s`, italic.
pub open spec fn with_italic(s: TextStyle) -> TextStyle {
    TextStyle { italic: true, ..s }
}

/// Text in the colour `c`.
pub open spec fn fg_style(c: Rgb) -> TextStyle {
    with_fg(plain(), c)
}

/// A span's value.
pub open spec fn span_of(text: Seq<char>, style: TextStyle) -> SpanView {
    SpanView { text, style }
}

/// A line of spans in no style of its own.
pub open spec fn line_of(spans: Seq<SpanView>) -> LineView {
    LineView { spans, style: plain() }
}

/// The empty line.
pub open spec fn empty_line() -> LineView {
    line_of(Seq::empty())
}

/// A line of one unstyled span, drawn in the style `style`.
pub open spec fn filled_line(text: Seq<char>, style: TextStyle) -> LineView {
    LineView { spans: seq![span_of(text, plain())], style }
}

/// The unstyled style.
pub fn style_plain() -> (s: TextStyle)
    ensures
        s == plain(),
{
    TextStyle { fg: None, bg: None, bold: false, italic: false }
}

/// Text in the colour `c`.
pub fn style_fg(c: Rgb) -> (s: TextStyle)
    ensures
        s == fg_style(c),
{
    TextStyle { fg: Some(c), bg: None, bold: false, italic: false }
}

impl TextStyle {
    /// This style with the foreground colour `c`.
    pub fn fg(self, c: Rgb) -> (s: TextStyle)
        ensures
            s == with_fg(self, c),
    {
        TextStyle { fg: Some(c), ..self }
    }

    /// This style with the background colour `c`.
    pub fn bg(self, c: Rgb) -> (s: TextStyle)
        ensures
            s == with_bg(self, c),
    {
        TextStyle { bg: Some(c), ..self }
    }

    /// This style, bold.
    pub fn bold(self) -> (s: TextStyle)
        ensures
            s == with_bold(self),
    {
        TextStyle { bold: true, ..self }
    }

    /// This style, italic.
    pub fn italic(self) -> (s: TextStyle)
        ensures
            s == with_italic(self),
    {
        TextStyle { italic: true, ..self }
    }
}

/// A span of `text` in `style`.
pub fn span(text: String, style: TextStyle) -> (s: StyledSpan)
    ensures
        s@ == span_of(text@, style),
{
    StyledSpan { text, style }
}

/// A span of a string slice in `style`.
pub fn span_str(text: &str, style: TextStyle) -> (s: StyledSpan)
    ensures
        s@ == span_of(text@, style),
{
    StyledSpan { text: text.to_string(), style }
}

/// A line of the given spans in no style of its own.
pub fn line(spans: Vec<StyledSpan>) -> (l: StyledLine)
    ensures
        l@ == line_of(spans_view(spans@)),
{
    StyledLine { spans, style: style_plain() }
}

/// The empty line.
pub fn blank_line() -> (l: StyledLine)
    ensures
        l@ == empty_line(),
{
    let l = StyledLine { spans: Vec::new(), style: style_plain() };
    assert(spans_view(l.spans@) =~= Seq::<SpanView>::empty());
    l
}

/// A line of one unstyled span, drawn in `style`.
pub fn filled(text: String, style: TextStyle) -> (l: StyledLine)
    ensures
        l@ == filled_line(text@, style),
{
    let mut spans: Vec<StyledSpan> = Vec::new();
    spans.push(StyledSpan { text, style: style_plain() });
    let l = StyledLine { spans, style };
    assert(spans_view(l.spans@) =~= seq![span_of(text@, plain())]);
    l
}

/// Appends a line to a list of lines.
pub fn push_line(lines: &mut Vec<StyledLine>, l: StyledLine)
    ensures
        lines_view(final(lines)@) == lines_view(old(lines)@).push(l@),
{
    let ghost before = lines@;
    lines.push(l);
    assert(lines_view(lines@) =~= lines_view(before).push(l@));
}

/// Appends a span to a list of spans.
pub fn push_span(spans: &mut Vec<StyledSpan>, s: StyledSpan)
    ensures
        spans_view(final(spans)@) == spans_view(old(spans)@).push(s@),
{
    let ghost before = spans@;
    spans.push(s);
    assert(spans_view(spans@) =~= spans_view(before).push(s@));
}

// ---------------------------------------------------------------- theme

/// Mistral orange, the primary colour.
#[verifier::allow_in_spec]
pub fn primary() -> Rgb
    returns
        (Rgb { r: 255, g: 175, b: 0 }),
{
    Rgb { r: 255, g: 175, b: 0 }
}

/// Green, for success.
#[verifier::allow_in_spec]
pub fn success() -> Rgb
    returns
        (Rgb { r: 0, g: 175, b: 0 }),
{
    Rgb { r: 0, g: 175, b: 0 }
}

/// Orange, for warnings.
#[verifier::allow_in_spec]
pub fn warning() -> Rgb
    returns
        (Rgb { r: 255, g: 175, b: 0 }),
{
    Rgb { r: 255, g: 175, b: 0 }
}

/// Red, for errors.
#[verifier::allow_in_spec]
pub fn error() -> Rgb
    returns
        (Rgb { r: 255, g: 85, b: 85 }),
{
    Rgb { r: 255, g: 85, b: 85 }
}

/// Grey, for muted text.
#[verifier::allow_in_spec]
pub fn muted() -> Rgb
    returns
        (Rgb { r: 128, g: 128, b: 128 }),
{
    Rgb { r: 128, g: 128, b: 128 }
}

/// The dark background.
#[verifier::allow_in_spec]
pub fn background() -> Rgb
    returns
        (Rgb { r: 20, g: 20, b: 20 }),
{
    Rgb { r: 20, g: 20, b: 20 }
}

/// The surface, slightly lighter than the background.
#[verifier::allow_in_spec]
pub fn surface() -> Rgb
    returns
        (Rgb { r: 38, g: 38, b: 38 }),
{
    Rgb { r: 38, g: 38, b: 38 }
}

/// Light text.
#[verifier::allow_in_spec]
pub fn text_color() -> Rgb
    returns
        (Rgb { r: 220, g: 220, b: 220 }),
{
    Rgb { r: 220, g: 220, b: 220 }
}

/// The blue accent.
#[verifier::allow_in_spec]
pub fn accent() -> Rgb
    returns
        (Rgb { r: 100, g: 180, b: 255 }),
{
    Rgb { r: 100, g: 180, b: 255 }
}

/// The foreground.
#[verifier::allow_in_spec]
pub fn foreground() -> Rgb
    returns
        (Rgb { r: 220, g: 220, b: 220 }),
{
    Rgb { r: 220, g: 220, b: 220 }
}

/// The muted foreground.
#[verifier::allow_in_spec]
pub fn foreground_muted() -> Rgb
    returns
        (Rgb { r: 128, g: 128, b: 128 }),
{
    Rgb { r: 128, g: 128, b: 128 }
}

/// The colours of the animation gradient, from light orange to dark red.
pub open spec fn gradient() -> Seq<Rgb> {
    seq![
        Rgb { r: 255, g: 216, b: 0 },
        Rgb { r: 255, g: 175, b: 0 },
        Rgb { r: 255, g: 130, b: 5 },
        Rgb { r: 250, g: 80, b: 15 },
        Rgb { r: 225, g: 5, b: 0 },
    ]
}

/// The colour of the gradient at position `i` (below 5).
pub fn gradient_color(i: usize) -> (c: Rgb)
    requires
        i < 5,
    ensures
        c == gradient()[i as int],
{
    if i == 0 {
        Rgb { r: 255, g: 216, b: 0 }
    } else if i == 1 {
        Rgb { r: 255, g: 175, b: 0 }
    } else if i == 2 {
        Rgb { r: 255, g: 130, b: 5 }
    } else if i == 3 {
        Rgb { r: 250, g: 80, b: 15 }
    } else {
        Rgb { r: 225, g: 5, b: 0 }
    }
}

/// The background of the trust dialog.
pub fn dialog_bg() -> (s: TextStyle)
    ensures
        s == with_bg(plain(), rgb(30, 30, 30)),
{
    style_plain().bg(Rgb { r: 30, g: 30, b: 30 })
}

/// The text of the trust dialog.
pub fn dialog_text() -> (s: TextStyle)
    ensures
        s == fg_style(rgb(220, 220, 220)),
{
    style_fg(Rgb { r: 220, g: 220, b: 220 })
}

/// A path in the trust dialog.
pub fn path_text() -> (s: TextStyle)
    ensures
        s == fg_style(rgb(255, 175, 0)),
{
    style_fg(Rgb { r: 255, g: 175, b: 0 })
}

/// An option of the trust dialog.
pub fn option_text() -> (s: TextStyle)
    ensures
        s == fg_style(rgb(200, 200, 200)),
{
    style_fg(Rgb { r: 200, g: 200, b: 200 })
}

/// The selected option of the trust dialog.
pub fn selected_option() -> (s: TextStyle)
    ensures
        s == with_bold(fg_style(rgb(255, 175, 0))),
{
    style_fg(Rgb { r: 255, g: 175, b: 0 }).bold()
}

/// The help text of the trust dialog.
pub fn help_text() -> (s: TextStyle)
    ensures
        s == fg_style(rgb(100, 100, 100)),
{
    style_fg(Rgb { r: 100, g: 100, b: 100 })
}

/// The save notice of the trust dialog.
pub fn save_info_text() -> (s: TextStyle)
    ensures
        s == fg_style(rgb(100, 180, 255)),
{
    style_fg(Rgb { r: 100, g: 180, b: 255 })
}

} // verus!
