//! The steps a command is made of. A command only decides on its steps; the
//! program around the library carries them out, in order, and stops at the
//! first one that fails.

use vstd::prelude::*;
use crate::text::{Line, SpanView};

verus! {

/// One step of a command.
#[derive(Clone, Debug, PartialEq, Eq)]
pub enum Action {
    /// Write the line to standard output, followed by a line break.
    Print(Line),
    /// Create the directory at `path` with all its missing parents; if that
    /// cannot be done, stop with the message `failure`.
    CreateDir { path: String, failure: String },
    /// Write `contents` to the file at `path`, replacing what it held; if that
    /// cannot be done, stop with the message `failure`.
    WriteFile { path: String, contents: String, failure: String },
}

/// What an `Action` stands for.
pub ghost enum ActionView {
    Print(Seq<SpanView>),
    CreateDir { path: Seq<char>, failure: Seq<char> },
    WriteFile { path: Seq<char>, contents: Seq<char>, failure: Seq<char> },
}

impl View for Action {
    type V = ActionView;

    open spec fn view(&self) -> ActionView {
        match *self {
            Action::Print(line) => ActionView::Print(line@),
            Action::CreateDir { path, failure } => ActionView::CreateDir {
                path: path@,
                failure: failure@,
            },
            Action::WriteFile { path, contents, failure } => ActionView::WriteFile {
                path: path@,
                contents: contents@,
                failure: failure@,
            },
        }
    }
}

impl DeepView for Action {
    type V = ActionView;

    open spec fn deep_view(&self) -> ActionView {
        self@
    }
}

/// Whether every step of `script` only prints: such a script reads and
/// changes nothing on disk, and none of its steps can fail.
pub open spec fn only_prints(script: Seq<ActionView>) -> bool {
    forall|i: int| 0 <= i < script.len() ==> #[trigger] script[i] is Print
}

} // verus!
