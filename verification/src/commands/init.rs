//! `init`: set up a project in the current directory.

use vstd::prelude::*;
use crate::action::{Action, ActionView};
use crate::text::{Line, Style, blank_line, span, styled_line};

verus! {

/// The directory that `init` creates for the tool's output.
pub const OUTPUT_DIR: &'static str = "flintx_output";

/// The file that `init` writes the project's settings to.
pub const CONFIG_FILE: &'static str = "flintx.config.json";

/// The settings a new project starts with: a JSON object of five text fields,
/// `version`, `project`, `ai_endpoint`, `ollama_model` and `output_dir`.
pub const CONFIG_TEMPLATE: &'static str = "{\n  \"version\": \"0.1.0\",\n  \"project\": \"flintx-project\",\n  \"ai_endpoint\": \"http://localhost:8000/analyze\",\n  \"ollama_model\": \"mistral\",\n  \"output_dir\": \"./flintx_output\"\n}\n";

/// What `init` does: it announces itself, creates the output directory,
/// writes the settings file, and only then reports both and points the user
/// to the file.
pub open spec fn script() -> Seq<ActionView> {
    seq![
        ActionView::Print(styled_line("[ INIT ] Initializing Flint-X project..."@, Style::YellowBold)),
        ActionView::CreateDir { path: OUTPUT_DIR@, failure: "Failed to create output directory"@ },
        ActionView::WriteFile {
            path: CONFIG_FILE@,
            contents: CONFIG_TEMPLATE@,
            failure: "Failed to write config file"@,
        },
        ActionView::Print(styled_line("  ✔ Created flintx.config.json"@, Style::Green)),
        ActionView::Print(styled_line("  ✔ Created flintx_output/ directory"@, Style::Green)),
        ActionView::Print(blank_line()),
        ActionView::Print(styled_line("  Flint-X project ready."@, Style::Bold)),
        ActionView::Print(
            seq![
                span("  Edit "@, Style::Plain),
                span(CONFIG_FILE@, Style::Cyan),
                span(" to configure your AI endpoint and model."@, Style::Plain),
            ],
        ),
    ]
}

/// One member of the settings object as the file holds it: indented by two
/// spaces, key and value in double quotes, a colon and a space between them.
pub open spec fn member(key: Seq<char>, value: Seq<char>) -> Seq<char> {
    "  \""@ + key + "\": \""@ + value + "\""@
}

/// The settings that `init` writes, member by member.
pub open spec fn settings() -> Seq<char> {
    "{\n"@ + member("version"@, "0.1.0"@) + ",\n"@ + member("project"@, "flintx-project"@)
        + ",\n"@ + member("ai_endpoint"@, "http://localhost:8000/analyze"@) + ",\n"@ + member(
        "ollama_model"@,
        "mistral"@,
    ) + ",\n"@ + member("output_dir"@, "./"@ + OUTPUT_DIR@) + "\n}\n"@
}

/// The settings file holds one object of exactly five members, one on a
/// line: `version`, `project`, `ai_endpoint`, `ollama_model` and
/// `output_dir`, in this order, and `output_dir` names the directory that
/// `init` creates.
pub proof fn template_holds_five_members()
    ensures
        CONFIG_TEMPLATE@ == settings(),
{
    reveal_strlit("{\n  \"version\": \"0.1.0\",\n  \"project\": \"flintx-project\",\n  \"ai_endpoint\": \"http://localhost:8000/analyze\",\n  \"ollama_model\": \"mistral\",\n  \"output_dir\": \"./flintx_output\"\n}\n");
    reveal_strlit("flintx_output");
    reveal_strlit("  \"");
    reveal_strlit("\": \"");
    reveal_strlit("\"");
    reveal_strlit("{\n");
    reveal_strlit(",\n");
    reveal_strlit("\n}\n");
    reveal_strlit("./");
    reveal_strlit("version");
    reveal_strlit("0.1.0");
    reveal_strlit("project");
    reveal_strlit("flintx-project");
    reveal_strlit("ai_endpoint");
    reveal_strlit("http://localhost:8000/analyze");
    reveal_strlit("ollama_model");
    reveal_strlit("mistral");
    reveal_strlit("output_dir");
    assert(CONFIG_TEMPLATE@ =~= settings());
}

/// The steps of `init`.
pub fn execute() -> (out: Vec<Action>)
    ensures
        out.deep_view() == script(),
{
    let mut out: Vec<Action> = Vec::new();
    out.push(Action::Print(Line::styled("[ INIT ] Initializing Flint-X project...", Style::YellowBold)));
    out.push(Action::CreateDir {
        path: OUTPUT_DIR.to_owned(),
        failure: "Failed to create output directory".to_owned(),
    });
    out.push(Action::WriteFile {
        path: CONFIG_FILE.to_owned(),
        contents: CONFIG_TEMPLATE.to_owned(),
        failure: "Failed to write config file".to_owned(),
    });
    out.push(Action::Print(Line::styled("  ✔ Created flintx.config.json", Style::Green)));
    out.push(Action::Print(Line::styled("  ✔ Created flintx_output/ directory", Style::Green)));
    out.push(Action::Print(Line::blank()));
    out.push(Action::Print(Line::styled("  Flint-X project ready.", Style::Bold)));
    let hint = Line::styled("  Edit ", Style::Plain).with(CONFIG_FILE, Style::Cyan).with(
        " to configure your AI endpoint and model.",
        Style::Plain,
    );
    assert(hint@ =~= seq![
        span("  Edit "@, Style::Plain),
        span(CONFIG_FILE@, Style::Cyan),
        span(" to configure your AI endpoint and model."@, Style::Plain),
    ]);
    out.push(Action::Print(hint));
    assert(out.deep_view() =~= script());
    out
}

} // verus!
