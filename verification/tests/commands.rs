use flintx::action::Action;
use flintx::commands::{analyze, init, optimize, profile, run};
use flintx::text::{Line, Span, Style};

fn span(text: &str, style: Style) -> Span {
    Span { text: text.to_string(), style }
}

fn print(spans: Vec<Span>) -> Action {
    Action::Print(Line { spans })
}

fn is_print(action: &Action) -> bool {
    matches!(action, Action::Print(_))
}

#[test]
fn analyze_announces_names_target_and_notes() {
    let expected = vec![
        print(vec![span("[ ANALYZE ] Running static analysis...", Style::YellowBold)]),
        print(vec![span("  Target: ", Style::Plain), span("src/app.py", Style::Cyan)]),
        print(vec![]),
        print(vec![span("  → Static analysis engine not yet connected.", Style::Dimmed)]),
        print(vec![span("  → Phase 3 will wire the Python AST analyzer here.", Style::Dimmed)]),
    ];
    assert_eq!(analyze::execute("src/app.py"), expected);
}

#[test]
fn profile_announces_names_target_and_notes() {
    let expected = vec![
        print(vec![span("[ PROFILE ] Running runtime profiler...", Style::YellowBold)]),
        print(vec![span("  Target: ", Style::Plain), span("train.py", Style::Cyan)]),
        print(vec![]),
        print(vec![span("  → Runtime profiler not yet connected.", Style::Dimmed)]),
        print(vec![span("  → Phase 4 will wire cProfile + psutil here.", Style::Dimmed)]),
    ];
    assert_eq!(profile::execute("train.py"), expected);
}

#[test]
fn optimize_with_input_names_the_file() {
    let expected = vec![
        print(vec![span("[ OPTIMIZE ] Querying AI optimization layer...", Style::YellowBold)]),
        print(vec![span("  Input file: ", Style::Plain), span("analysis.json", Style::Cyan)]),
        print(vec![]),
        print(vec![span("  → AI layer not yet connected.", Style::Dimmed)]),
        print(vec![span("  → Phase 5 will wire FastAPI + Ollama here.", Style::Dimmed)]),
    ];
    assert_eq!(optimize::execute(Some("analysis.json".to_string())), expected);
}

#[test]
fn optimize_without_input_falls_back_to_last_run() {
    let expected = vec![
        print(vec![span("[ OPTIMIZE ] Querying AI optimization layer...", Style::YellowBold)]),
        print(vec![span("  Input: ", Style::Plain), span("auto (from last run)", Style::Dimmed)]),
        print(vec![]),
        print(vec![span("  → AI layer not yet connected.", Style::Dimmed)]),
        print(vec![span("  → Phase 5 will wire FastAPI + Ollama here.", Style::Dimmed)]),
    ];
    assert_eq!(optimize::execute(None), expected);
}

#[test]
fn run_lists_the_three_stages() {
    let expected = vec![
        print(vec![span("[ RUN ] Executing full Flint-X pipeline...", Style::YellowBold)]),
        print(vec![span("  Target: ", Style::Plain), span("model.py", Style::Cyan)]),
        print(vec![]),
        print(vec![span("  Pipeline steps:", Style::Bold)]),
        print(vec![
            span("    ", Style::Plain),
            span("1.", Style::Cyan),
            span(" Static Analysis", Style::Plain),
        ]),
        print(vec![
            span("    ", Style::Plain),
            span("2.", Style::Cyan),
            span(" Runtime Profiling", Style::Plain),
        ]),
        print(vec![
            span("    ", Style::Plain),
            span("3.", Style::Cyan),
            span(" AI Optimization Query", Style::Plain),
        ]),
        print(vec![]),
        print(vec![span("  → Full pipeline not yet connected.", Style::Dimmed)]),
        print(vec![span("  → Phase 6 will wire all stages together here.", Style::Dimmed)]),
    ];
    assert_eq!(run::execute("model.py"), expected);
}

#[test]
fn init_creates_directory_then_file_then_reports() {
    let config = "{\n  \"version\": \"0.1.0\",\n  \"project\": \"flintx-project\",\n  \"ai_endpoint\": \"http://localhost:8000/analyze\",\n  \"ollama_model\": \"mistral\",\n  \"output_dir\": \"./flintx_output\"\n}\n";
    let expected = vec![
        print(vec![span("[ INIT ] Initializing Flint-X project...", Style::YellowBold)]),
        Action::CreateDir {
            path: "flintx_output".to_string(),
            failure: "Failed to create output directory".to_string(),
        },
        Action::WriteFile {
            path: "flintx.config.json".to_string(),
            contents: config.to_string(),
            failure: "Failed to write config file".to_string(),
        },
        print(vec![span("  ✔ Created flintx.config.json", Style::Green)]),
        print(vec![span("  ✔ Created flintx_output/ directory", Style::Green)]),
        print(vec![]),
        print(vec![span("  Flint-X project ready.", Style::Bold)]),
        print(vec![
            span("  Edit ", Style::Plain),
            span("flintx.config.json", Style::Cyan),
            span(" to configure your AI endpoint and model.", Style::Plain),
        ]),
    ];
    assert_eq!(init::execute(), expected);
}

#[test]
fn init_names_its_file_and_directory() {
    assert_eq!(init::OUTPUT_DIR, "flintx_output");
    assert_eq!(init::CONFIG_FILE, "flintx.config.json");
}

#[test]
fn config_template_has_the_five_fields_in_order() {
    let lines: Vec<&str> = init::CONFIG_TEMPLATE.lines().collect();
    assert_eq!(
        lines,
        vec![
            "{",
            "  \"version\": \"0.1.0\",",
            "  \"project\": \"flintx-project\",",
            "  \"ai_endpoint\": \"http://localhost:8000/analyze\",",
            "  \"ollama_model\": \"mistral\",",
            "  \"output_dir\": \"./flintx_output\"",
            "}",
        ]
    );
    assert!(init::CONFIG_TEMPLATE.ends_with("}\n"));
    assert_eq!(init::CONFIG_TEMPLATE.matches("\": \"").count(), 5);
}

#[test]
fn config_template_points_at_the_output_directory() {
    let member = format!("\"output_dir\": \"./{}\"", init::OUTPUT_DIR);
    assert!(init::CONFIG_TEMPLATE.contains(&member));
}

#[test]
fn target_that_does_not_exist_is_taken_as_it_is() {
    let target = "/no/such/dir/nothing-here.py";
    for script in [analyze::execute(target), profile::execute(target), run::execute(target)] {
        assert!(script.iter().all(is_print));
        assert_eq!(script[1], print(vec![span("  Target: ", Style::Plain), span(target, Style::Cyan)]));
    }
    let script = optimize::execute(Some(target.to_string()));
    assert!(script.iter().all(is_print));
    assert_eq!(script[1], print(vec![span("  Input file: ", Style::Plain), span(target, Style::Cyan)]));
}

#[test]
fn empty_target_is_shown_as_an_empty_cyan_span() {
    let script = analyze::execute("");
    assert_eq!(script.len(), 5);
    assert_eq!(script[1], print(vec![span("  Target: ", Style::Plain), span("", Style::Cyan)]));
}

#[test]
fn only_init_has_steps_on_disk() {
    let script = init::execute();
    let on_disk: Vec<usize> = (0..script.len()).filter(|i| !is_print(&script[*i])).collect();
    assert_eq!(on_disk, vec![1, 2]);
    assert!(matches!(script[1], Action::CreateDir { .. }));
    assert!(matches!(script[2], Action::WriteFile { .. }));
    assert!(analyze::execute("a").iter().all(is_print));
    assert!(profile::execute("a").iter().all(is_print));
    assert!(run::execute("a").iter().all(is_print));
    assert!(optimize::execute(None).iter().all(is_print));
}

#[test]
fn target_line_is_a_label_and_the_target_in_cyan() {
    assert_eq!(
        flintx::commands::name_target("lib/core.py"),
        Line { spans: vec![span("  Target: ", Style::Plain), span("lib/core.py", Style::Cyan)] }
    );
}
