//! `run`: the whole pipeline on one target.

use vstd::prelude::*;
use crate::action::{Action, ActionView, only_prints};
use crate::commands::{name_target, target_line};
use crate::text::{Line, SpanView, Style, blank_line, span, styled_line};

verus! {

/// What `run` does for `target`: it announces the pipeline and its three
/// stages, and says that none of them is connected yet.
pub open spec fn script(target: Seq<char>) -> Seq<ActionView> {
    seq![
        ActionView::Print(styled_line("[ RUN ] Executing full Flint-X pipeline..."@, Style::YellowBold)),
        ActionView::Print(target_line(target)),
        ActionView::Print(blank_line()),
        ActionView::Print(styled_line("  Pipeline steps:"@, Style::Bold)),
        ActionView::Print(stage_line("1."@, " Static Analysis"@)),
        ActionView::Print(stage_line("2."@, " Runtime Profiling"@)),
        ActionView::Print(stage_line("3."@, " AI Optimization Query"@)),
        ActionView::Print(blank_line()),
        ActionView::Print(styled_line("  → Full pipeline not yet connected."@, Style::Dimmed)),
        ActionView::Print(styled_line("  → Phase 6 will wire all stages together here."@, Style::Dimmed)),
    ]
}

/// The line that lists one stage: its number in cyan, indented, then its name.
pub open spec fn stage_line(number: Seq<char>, name: Seq<char>) -> Seq<SpanView> {
    seq![span("    "@, Style::Plain), span(number, Style::Cyan), span(name, Style::Plain)]
}

/// The line for the stage `number` called `name`.
fn stage(number: &str, name: &str) -> (out: Line)
    ensures
        out@ == stage_line(number@, name@),
{
    let out = Line::styled("    ", Style::Plain).with(number, Style::Cyan).with(name, Style::Plain);
    assert(out@ =~= stage_line(number@, name@));
    out
}

/// The steps of `run` for `target`. The target is only shown: it is not
/// looked up, so any text is taken.
pub fn execute(target: &str) -> (out: Vec<Action>)
    ensures
        out.deep_view() == script(target@),
        only_prints(out.deep_view()),
{
    let mut out: Vec<Action> = Vec::new();
    out.push(Action::Print(Line::styled("[ RUN ] Executing full Flint-X pipeline...", Style::YellowBold)));
    out.push(Action::Print(name_target(target)));
    out.push(Action::Print(Line::blank()));
    out.push(Action::Print(Line::styled("  Pipeline steps:", Style::Bold)));
    out.push(Action::Print(stage("1.", " Static Analysis")));
    out.push(Action::Print(stage("2.", " Runtime Profiling")));
    out.push(Action::Print(stage("3.", " AI Optimization Query")));
    out.push(Action::Print(Line::blank()));
    out.push(Action::Print(Line::styled("  → Full pipeline not yet connected.", Style::Dimmed)));
    out.push(Action::Print(Line::styled("  → Phase 6 will wire all stages together here.", Style::Dimmed)));
    assert(out.deep_view() =~= script(target@));
    out
}

} // verus!
