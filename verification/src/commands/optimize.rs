//! `optimize`: ask for optimization advice.

use vstd::prelude::*;
use crate::action::{Action, ActionView, only_prints};
use crate::text::{Line, SpanView, Style, blank_line, span, styled_line};

verus! {

/// The line that names where the analysis comes from: the file that was
/// given, in cyan, or a dimmed note that the last run's is taken.
pub open spec fn input_line(input: Option<Seq<char>>) -> Seq<SpanView> {
    match input {
        Some(path) => seq![span("  Input file: "@, Style::Plain), span(path, Style::Cyan)],
        None => seq![span("  Input: "@, Style::Plain), span("auto (from last run)"@, Style::Dimmed)],
    }
}

/// What `optimize` does for `input`: it announces the query, names its input,
/// and says that the AI layer is not connected yet.
pub open spec fn script(input: Option<Seq<char>>) -> Seq<ActionView> {
    seq![
        ActionView::Print(styled_line("[ OPTIMIZE ] Querying AI optimization layer..."@, Style::YellowBold)),
        ActionView::Print(input_line(input)),
        ActionView::Print(blank_line()),
        ActionView::Print(styled_line("  → AI layer not yet connected."@, Style::Dimmed)),
        ActionView::Print(styled_line("  → Phase 5 will wire FastAPI + Ollama here."@, Style::Dimmed)),
    ]
}

/// The steps of `optimize` for `input`. A path that is given is only shown:
/// it is not looked up, so any text is taken.
pub fn execute(input: Option<String>) -> (out: Vec<Action>)
    ensures
        out.deep_view() == script(input.deep_view()),
        only_prints(out.deep_view()),
{
    let source = match &input {
        Some(path) => Line::styled("  Input file: ", Style::Plain).with(path.as_str(), Style::Cyan),
        None => Line::styled("  Input: ", Style::Plain).with("auto (from last run)", Style::Dimmed),
    };
    assert(source@ =~= input_line(input.deep_view()));
    let mut out: Vec<Action> = Vec::new();
    out.push(Action::Print(Line::styled("[ OPTIMIZE ] Querying AI optimization layer...", Style::YellowBold)));
    out.push(Action::Print(source));
    out.push(Action::Print(Line::blank()));
    out.push(Action::Print(Line::styled("  → AI layer not yet connected.", Style::Dimmed)));
    out.push(Action::Print(Line::styled("  → Phase 5 will wire FastAPI + Ollama here.", Style::Dimmed)));
    assert(out.deep_view() =~= script(input.deep_view()));
    out
}

} // verus!
