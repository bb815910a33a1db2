//! `profile`: runtime profiling of one target.

use vstd::prelude::*;
use crate::action::{Action, ActionView, only_prints};
use crate::commands::{name_target, target_line};
use crate::text::{Line, Style, blank_line, styled_line};

verus! {

/// What `profile` does for `target`: it announces the profiler, names the
/// target in cyan, and says that the profiler is not connected yet.
pub open spec fn script(target: Seq<char>) -> Seq<ActionView> {
    seq![
        ActionView::Print(styled_line("[ PROFILE ] Running runtime profiler..."@, Style::YellowBold)),
        ActionView::Print(target_line(target)),
        ActionView::Print(blank_line()),
        ActionView::Print(styled_line("  → Runtime profiler not yet connected."@, Style::Dimmed)),
        ActionView::Print(styled_line("  → Phase 4 will wire cProfile + psutil here."@, Style::Dimmed)),
    ]
}

/// The steps of `profile` for `target`. The target is only shown: it is not
/// looked up, so any text is taken.
pub fn execute(target: &str) -> (out: Vec<Action>)
    ensures
        out.deep_view() == script(target@),
        only_prints(out.deep_view()),
{
    let mut out: Vec<Action> = Vec::new();
    out.push(Action::Print(Line::styled("[ PROFILE ] Running runtime profiler...", Style::YellowBold)));
    out.push(Action::Print(name_target(target)));
    out.push(Action::Print(Line::blank()));
    out.push(Action::Print(Line::styled("  → Runtime profiler not yet connected.", Style::Dimmed)));
    out.push(Action::Print(Line::styled("  → Phase 4 will wire cProfile + psutil here.", Style::Dimmed)));
    assert(out.deep_view() =~= script(target@));
    out
}

} // verus!
