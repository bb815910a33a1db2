use flintx::text::{Line, Span, Style};

#[test]
fn span_new_keeps_text_and_style() {
    let span = Span::new("ready", Style::Green);
    assert_eq!(span, Span { text: "ready".to_string(), style: Style::Green });
}

#[test]
fn blank_line_has_no_spans() {
    assert_eq!(Line::blank(), Line { spans: vec![] });
}

#[test]
fn styled_line_has_one_span() {
    let line = Line::styled("  Pipeline steps:", Style::Bold);
    assert_eq!(
        line,
        Line { spans: vec![Span { text: "  Pipeline steps:".to_string(), style: Style::Bold }] }
    );
}

#[test]
fn with_appends_at_the_right_end() {
    let line = Line::blank().with("a", Style::Plain).with("b", Style::Cyan).with("c", Style::Dimmed);
    assert_eq!(
        line,
        Line {
            spans: vec![
                Span { text: "a".to_string(), style: Style::Plain },
                Span { text: "b".to_string(), style: Style::Cyan },
                Span { text: "c".to_string(), style: Style::Dimmed },
            ]
        }
    );
}
