//! Styled terminal text: spans of characters with one style each, and lines
//! made of spans.

use vstd::prelude::*;

verus! {

/// The looks that the tool prints text in.
#[derive(Clone, Copy, Debug, PartialEq, Eq, Structural)]
pub enum Style {
    /// No colour and no emphasis.
    Plain,
    /// Bold, in the terminal's own colour.
    Bold,
    /// Dimmed, in the terminal's own colour.
    Dimmed,
    /// Cyan foreground.
    Cyan,
    /// Green foreground.
    Green,
    /// Yellow foreground, bold.
    YellowBold,
}

/// A run of characters in one style.
#[derive(Clone, Debug, PartialEq, Eq)]
pub struct Span {
    pub text: String,
    pub style: Style,
}

/// What a `Span` stands for: its characters and its style.
pub ghost struct SpanView {
    pub text: Seq<char>,
    pub style: Style,
}

impl View for Span {
    type V = SpanView;

    open spec fn view(&self) -> SpanView {
        SpanView { text: self.text@, style: self.style }
    }
}

impl DeepView for Span {
    type V = SpanView;

    open spec fn deep_view(&self) -> SpanView {
        self@
    }
}

/// One line of output, without its line break: spans from left to right.
#[derive(Clone, Debug, PartialEq, Eq)]
pub struct Line {
    pub spans: Vec<Span>,
}

impl View for Line {
    type V = Seq<SpanView>;

    open spec fn view(&self) -> Seq<SpanView> {
        self.spans.deep_view()
    }
}

impl DeepView for Line {
    type V = Seq<SpanView>;

    open spec fn deep_view(&self) -> Seq<SpanView> {
        self@
    }
}

/// The span that holds `text` in `style`.
pub open spec fn span(text: Seq<char>, style: Style) -> SpanView {
    SpanView { text, style }
}

/// The line with nothing on it.
pub open spec fn blank_line() -> Seq<SpanView> {
    Seq::empty()
}

/// The line that holds `text` in `style` and nothing else.
pub open spec fn styled_line(text: Seq<char>, style: Style) -> Seq<SpanView> {
    seq![span(text, style)]
}

impl Span {
    /// A span of `text` in `style`.
    pub fn new(text: &str, style: Style) -> (out: Span)
        ensures
            out@ == span(text@, style),
    {
        Span { text: text.to_owned(), style }
    }
}

impl Line {
    /// The empty line.
    pub fn blank() -> (out: Line)
        ensures
            out@ == blank_line(),
    {
        let out = Line { spans: Vec::new() };
        assert(out@ =~= blank_line());
        out
    }

    /// A line of one span: `text` in `style`.
    pub fn styled(text: &str, style: Style) -> (out: Line)
        ensures
            out@ == styled_line(text@, style),
    {
        let mut spans: Vec<Span> = Vec::new();
        spans.push(Span::new(text, style));
        let out = Line { spans };
        assert(out@ =~= styled_line(text@, style));
        out
    }

    /// This line with one more span at its right end: `text` in `style`.
    pub fn with(self, text: &str, style: Style) -> (out: Line)
        ensures
            out@ == self@.push(span(text@, style)),
    {
        let mut spans = self.spans;
        spans.push(Span::new(text, style));
        let out = Line { spans };
        assert(out@ =~= self@.push(span(text@, style)));
        out
    }
}

} // verus!
