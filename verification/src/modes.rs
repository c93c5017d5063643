//! Agent modes, their safety classes, and the mode indicator of the UI.
use vstd::prelude::*;
use crate::backend::factory::{lowercase, to_lowercase};
use crate::style::{fg_style, span_of, line_of, rgb, Rgb, LineView, StyledLine, StyledSpan, push_span, line, span, style_fg};
use crate::text::append_str;

verus! {

/// How the agent treats tool calls.
#[derive(Debug, Clone, Copy, PartialEq, Eq, Structural)]
pub enum AgentMode {
    Default,
    Plan,
    AcceptEdits,
    AutoApprove,
}

/// How much a mode lets the agent do without asking.
#[derive(Debug, Clone, Copy, PartialEq, Eq, Structural)]
pub enum ModeSafety {
    Safe,
    Neutral,
    Destructive,
    Yolo,
}

/// The safety class of a mode: planning is safe, the default mode neutral,
/// accepting edits destructive and approving everything reckless.
pub open spec fn safety_of(mode: AgentMode) -> ModeSafety {
    match mode {
        AgentMode::Default => ModeSafety::Neutral,
        AgentMode::Plan => ModeSafety::Safe,
        AgentMode::AcceptEdits => ModeSafety::Destructive,
        AgentMode::AutoApprove => ModeSafety::Yolo,
    }
}

/// The colour of a safety class.
pub open spec fn safety_color(s: ModeSafety) -> Rgb {
    match s {
        ModeSafety::Safe => rgb(0, 175, 0),
        ModeSafety::Neutral => rgb(128, 128, 128),
        ModeSafety::Destructive => rgb(255, 175, 0),
        ModeSafety::Yolo => rgb(255, 85, 85),
    }
}

impl AgentMode {
    /// The safety class of the mode.
    pub fn safety(&self) -> (s: ModeSafety)
        ensures
            s == safety_of(*self),
    {
        match self {
            AgentMode::Default => ModeSafety::Neutral,
            AgentMode::Plan => ModeSafety::Safe,
            AgentMode::AcceptEdits => ModeSafety::Destructive,
            AgentMode::AutoApprove => ModeSafety::Yolo,
        }
    }
}

/// The colour of a safety class.
pub fn mode_safety_color(s: ModeSafety) -> (c: Rgb)
    ensures
        c == safety_color(s),
{
    match s {
        ModeSafety::Safe => Rgb { r: 0, g: 175, b: 0 },
        ModeSafety::Neutral => Rgb { r: 128, g: 128, b: 128 },
        ModeSafety::Destructive => Rgb { r: 255, g: 175, b: 0 },
        ModeSafety::Yolo => Rgb { r: 255, g: 85, b: 85 },
    }
}

/// The border colour of the input box in a mode.
pub fn mode_border_color(mode: &AgentMode) -> (c: Rgb)
    ensures
        c == safety_color(safety_of(*mode)),
{
    match mode {
        AgentMode::Default => Rgb { r: 128, g: 128, b: 128 },
        AgentMode::Plan => Rgb { r: 0, g: 175, b: 0 },
        AgentMode::AcceptEdits => Rgb { r: 255, g: 175, b: 0 },
        AgentMode::AutoApprove => Rgb { r: 255, g: 85, b: 85 },
    }
}

/// The icon of a mode.
pub open spec fn icon_of(mode: AgentMode) -> Seq<char> {
    match mode {
        AgentMode::Default => "⏵"@,
        AgentMode::Plan => "⏸︎"@,
        AgentMode::AcceptEdits => "⏵⏵"@,
        AgentMode::AutoApprove => "⏵⏵⏵"@,
    }
}

/// The icon of a mode.
pub fn mode_icon(mode: AgentMode) -> (s: &'static str)
    ensures
        s@ == icon_of(mode),
{
    match mode {
        AgentMode::Default => "⏵",
        AgentMode::Plan => "⏸︎",
        AgentMode::AcceptEdits => "⏵⏵",
        AgentMode::AutoApprove => "⏵⏵⏵",
    }
}

/// The text of the mode indicator for a mode whose name is already lower-cased.
pub open spec fn named_indicator_text(mode: AgentMode, name: Seq<char>) -> Seq<char> {
    icon_of(mode) + " "@ + name + " mode (shift+tab to cycle)"@
}

/// The line of the mode indicator for a mode whose name is already lower-cased.
pub open spec fn indicator_line(mode: AgentMode, name: Seq<char>) -> LineView {
    line_of(seq![span_of(named_indicator_text(mode, name), fg_style(safety_color(safety_of(mode))))])
}

/// Mode indicator widget.
pub struct ModeIndicator {
    /// Current mode.
    pub mode: AgentMode,
}

impl ModeIndicator {
    /// Create a new mode indicator.
    pub fn new(mode: AgentMode) -> (m: ModeIndicator)
        ensures
            m.mode == mode,
    {
        ModeIndicator { mode }
    }

    /// The line of the indicator: "{icon} {name} mode (shift+tab to cycle)" in
    /// the colour of the mode's safety class, the name in lower case.
    pub fn render(&self, display_name: &str) -> (l: StyledLine)
        ensures
            l@ == indicator_line(self.mode, lowercase(display_name@)),
    {
        let name = to_lowercase(display_name);
        self.render_named(name.as_str())
    }

    /// The line of the indicator for a name that is already lower-cased.
    pub fn render_named(&self, name: &str) -> (l: StyledLine)
        ensures
            l@ == indicator_line(self.mode, name@),
    {
        let color = mode_safety_color(self.mode.safety());
        let mut text = String::new();
        append_str(&mut text, mode_icon(self.mode));
        append_str(&mut text, " ");
        append_str(&mut text, name);
        append_str(&mut text, " mode (shift+tab to cycle)");
        let mut spans: Vec<StyledSpan> = Vec::new();
        push_span(&mut spans, span(text, style_fg(color)));
        assert(crate::style::spans_view(spans@) =~= seq![span_of(named_indicator_text(self.mode, name@), fg_style(safety_color(safety_of(self.mode))))]);
        line(spans)
    }

    /// Update the mode.
    pub fn set_mode(&mut self, mode: AgentMode)
        ensures
            final(self).mode == mode,
    {
        self.mode = mode;
    }
}

} // verus!
