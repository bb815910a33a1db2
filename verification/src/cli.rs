//! The command line as the tool sees it once its arguments are read: the
//! banner that opens every run, the subcommand that was asked for, and the
//! steps that follow from it.

use vstd::prelude::*;
use crate::action::{Action, ActionView, only_prints};
use crate::commands::{analyze, init, optimize, profile, run};
use crate::text::{Line, Style, blank_line, styled_line};

verus! {

/// A subcommand with its arguments.
#[derive(Clone, Debug, PartialEq, Eq)]
pub enum Command {
    /// Set up a project in the current directory.
    Init,
    /// Analyze the source file or directory at `target`.
    Analyze { target: String },
    /// Profile the script at `target`.
    Profile { target: String },
    /// Ask for optimization advice on the analysis file at `input`, or on
    /// the last run's where none is given.
    Optimize { input: Option<String> },
    /// Analyze, profile and optimize the file at `target`.
    Run { target: String },
}

/// What a `Command` stands for.
pub ghost enum CommandView {
    Init,
    Analyze { target: Seq<char> },
    Profile { target: Seq<char> },
    Optimize { input: Option<Seq<char>> },
    Run { target: Seq<char> },
}

impl View for Command {
    type V = CommandView;

    open spec fn view(&self) -> CommandView {
        match *self {
            Command::Init => CommandView::Init,
            Command::Analyze { target } => CommandView::Analyze { target: target@ },
            Command::Profile { target } => CommandView::Profile { target: target@ },
            Command::Optimize { input } => CommandView::Optimize { input: input.deep_view() },
            Command::Run { target } => CommandView::Run { target: target@ },
        }
    }
}

impl DeepView for Command {
    type V = CommandView;

    open spec fn deep_view(&self) -> CommandView {
        self@
    }
}

/// The banner: a box of five cyan lines with the tool's name, version and
/// purpose, and an empty line under it.
pub open spec fn banner_script() -> Seq<ActionView> {
    seq![
        ActionView::Print(styled_line("╔══════════════════════════════════════╗"@, Style::Cyan)),
        ActionView::Print(styled_line("║        Flint-X v0.1.0                ║"@, Style::Cyan)),
        ActionView::Print(styled_line("║  AI Performance Intelligence Tool    ║"@, Style::Cyan)),
        ActionView::Print(styled_line("║  AMD Hardware-Aware Optimization     ║"@, Style::Cyan)),
        ActionView::Print(styled_line("╚══════════════════════════════════════╝"@, Style::Cyan)),
        ActionView::Print(blank_line()),
    ]
}

/// The steps that `command` stands for: those of its subcommand, on its
/// arguments.
pub open spec fn command_script(command: CommandView) -> Seq<ActionView> {
    match command {
        CommandView::Init => init::script(),
        CommandView::Analyze { target } => analyze::script(target),
        CommandView::Profile { target } => profile::script(target),
        CommandView::Optimize { input } => optimize::script(input),
        CommandView::Run { target } => run::script(target),
    }
}

/// Every subcommand but `init` only prints, whatever its arguments are: it
/// looks nothing up and cannot fail. `init` alone changes something on disk.
pub proof fn only_init_touches_disk(command: CommandView)
    ensures
        only_prints(command_script(command)) <==> !(command is Init),
{
    if command is Init {
        assert(command_script(command)[1] is CreateDir);
    }
}

/// The steps that print the banner. The tool prints it first, before it
/// looks at its arguments.
pub fn banner() -> (out: Vec<Action>)
    ensures
        out.deep_view() == banner_script(),
{
    let mut out: Vec<Action> = Vec::new();
    out.push(Action::Print(Line::styled("╔══════════════════════════════════════╗", Style::Cyan)));
    out.push(Action::Print(Line::styled("║        Flint-X v0.1.0                ║", Style::Cyan)));
    out.push(Action::Print(Line::styled("║  AI Performance Intelligence Tool    ║", Style::Cyan)));
    out.push(Action::Print(Line::styled("║  AMD Hardware-Aware Optimization     ║", Style::Cyan)));
    out.push(Action::Print(Line::styled("╚══════════════════════════════════════╝", Style::Cyan)));
    out.push(Action::Print(Line::blank()));
    assert(out.deep_view() =~= banner_script());
    out
}

/// The steps of `command`: it hands the arguments to the subcommand that was
/// asked for.
pub fn dispatch(command: Command) -> (out: Vec<Action>)
    ensures
        out.deep_view() == command_script(command@),
{
    match command {
        Command::Init => init::execute(),
        Command::Analyze { target } => analyze::execute(target.as_str()),
        Command::Profile { target } => profile::execute(target.as_str()),
        Command::Optimize { input } => optimize::execute(input),
        Command::Run { target } => run::execute(target.as_str()),
    }
}

} // verus!
