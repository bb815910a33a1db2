//! The subcommands, one module each, and what they share.

use vstd::prelude::*;
use crate::text::{Line, SpanView, Style, span};

pub mod analyze;
pub mod init;
pub mod optimize;
pub mod profile;
pub mod run;

verus! {

/// The line that names a command's target: a label, then the target in cyan.
pub open spec fn target_line(target: Seq<char>) -> Seq<SpanView> {
    seq![span("  Target: "@, Style::Plain), span(target, Style::Cyan)]
}

/// The line that names `target`, whatever it holds.
pub fn name_target(target: &str) -> (out: Line)
    ensures
        out@ == target_line(target@),
{
    let out = Line::styled("  Target: ", Style::Plain).with(target, Style::Cyan);
    assert(out@ =~= target_line(target@));
    out
}

} // verus!
