//! From styled text to the characters that go to the terminal. Colour and
//! emphasis are the `colored` crate's work: it decides, from the environment
//! and from its own switch, whether a styled text is written with escape
//! sequences or bare. This module says which two forms a styled text can
//! take, hands each styled span to `colored`, and puts a line together from
//! what came back.

use vstd::prelude::*;
use vstd::string::StringExecFns;
use colored::Colorize;
use crate::text::{Line, Span, SpanView, Style};

verus! {

/// The escape sequence that ends every style.
pub open spec fn reset_sequence() -> Seq<char> {
    "\x1b[0m"@
}

/// The escape sequence that starts `style`; nothing for plain text.
pub open spec fn start_sequence(style: Style) -> Seq<char> {
    match style {
        Style::Plain => Seq::empty(),
        Style::Bold => "\x1b[1m"@,
        Style::Dimmed => "\x1b[2m"@,
        Style::Cyan => "\x1b[36m"@,
        Style::Green => "\x1b[32m"@,
        Style::YellowBold => "\x1b[1;33m"@,
    }
}

/// `text` with `start` put in again behind every reset sequence that it
/// holds, so that a style lasts to the end of a text that resets styles
/// itself.
pub open spec fn resumed(text: Seq<char>, start: Seq<char>) -> Seq<char>
    decreases text.len(),
{
    if text.len() == 0 {
        text
    } else {
        let so_far = resumed(text.drop_last(), start).push(text.last());
        if reset_sequence().is_suffix_of(text) {
            so_far + start
        } else {
            so_far
        }
    }
}

/// `text` in `style` as a terminal takes it: the style's start sequence, the
/// text with the style resumed behind every reset in it, and a reset.
pub open spec fn colored_text(text: Seq<char>, style: Style) -> Seq<char> {
    start_sequence(style) + resumed(text, start_sequence(style)) + reset_sequence()
}

/// Whether `out` is a way to write `span`: its bare text, or, for a span
/// that has a style, its text in that style.
pub open spec fn renders(span: SpanView, out: Seq<char>) -> bool {
    out == span.text || (span.style != Style::Plain && out == colored_text(span.text, span.style))
}

/// Whether `out` is a way to write `line`: a way to write each of its spans,
/// one behind the other.
pub open spec fn renders_line(line: Seq<SpanView>, out: Seq<char>) -> bool {
    exists|parts: Seq<Seq<char>>|
        #![auto]
        parts.len() == line.len() && (forall|i: int|
            0 <= i < line.len() ==> renders(line[i], parts[i])) && out == parts.flatten()
}

/// The bare text of `line`: the texts of its spans, one behind the other.
pub open spec fn line_text(line: Seq<SpanView>) -> Seq<char> {
    line.map_values(|span: SpanView| span.text).flatten()
}

/// A text without an escape character resets no style, so in a style it is
/// the start sequence, the text itself and a reset.
pub proof fn colored_text_without_escape(text: Seq<char>, style: Style)
    requires
        !text.contains('\x1b'),
    ensures
        resumed(text, start_sequence(style)) == text,
        colored_text(text, style) == start_sequence(style) + text + reset_sequence(),
    decreases text.len(),
{
    if text.len() > 0 {
        let front = text.drop_last();
        assert forall|i: int| 0 <= i < front.len() implies front[i] != '\x1b' by {
            assert(front[i] == text[i]);
            assert(text.contains(text[i]));
        }
        colored_text_without_escape(front, style);
        assert(!reset_sequence().is_suffix_of(text)) by {
            reveal_strlit("\x1b[0m");
            if reset_sequence().is_suffix_of(text) {
                let at = text.len() - reset_sequence().len();
                assert(text[at] == reset_sequence()[0]);
                assert(text.contains(text[at]));
            }
        }
        assert(front.push(text.last()) =~= text);
    }
}

/// A line without a styled span can be written in one way only: as its bare
/// text. So an empty line is written as nothing.
pub proof fn plain_line_renders_as_its_text(line: Seq<SpanView>, out: Seq<char>)
    requires
        renders_line(line, out),
        forall|i: int| 0 <= i < line.len() ==> (#[trigger] line[i]).style == Style::Plain,
    ensures
        out == line_text(line),
{
    let parts = choose|parts: Seq<Seq<char>>|
        #![auto]
        parts.len() == line.len() && (forall|i: int|
            0 <= i < line.len() ==> renders(line[i], parts[i])) && out == parts.flatten();
    assert(parts =~= line.map_values(|span: SpanView| span.text));
}

/// `Colorize::bold` of `colored` on `text`, formatted by `to_string`. The
/// crate writes the text bare where colouring is off, and else between
/// `ESC[1m` and `ESC[0m`, with `ESC[1m` again behind each `ESC[0m` inside.
/// Which of the two it is depends on the environment and on the crate's
/// switch, which is taken not to change while the call runs.
#[verifier::external_body]
fn paint_bold(text: &str) -> (out: String)
    ensures
        out@ == text@ || out@ == colored_text(text@, Style::Bold),
{
    text.bold().to_string()
}

/// `Colorize::dimmed` of `colored` on `text`, formatted by `to_string`: the
/// text bare, or between `ESC[2m` and `ESC[0m`, as for `paint_bold`.
#[verifier::external_body]
fn paint_dimmed(text: &str) -> (out: String)
    ensures
        out@ == text@ || out@ == colored_text(text@, Style::Dimmed),
{
    text.dimmed().to_string()
}

/// `Colorize::cyan` of `colored` on `text`, formatted by `to_string`: the
/// text bare, or between `ESC[36m` and `ESC[0m`, as for `paint_bold`.
#[verifier::external_body]
fn paint_cyan(text: &str) -> (out: String)
    ensures
        out@ == text@ || out@ == colored_text(text@, Style::Cyan),
{
    text.cyan().to_string()
}

/// `Colorize::green` of `colored` on `text`, formatted by `to_string`: the
/// text bare, or between `ESC[32m` and `ESC[0m`, as for `paint_bold`.
#[verifier::external_body]
fn paint_green(text: &str) -> (out: String)
    ensures
        out@ == text@ || out@ == colored_text(text@, Style::Green),
{
    text.green().to_string()
}

/// `Colorize::yellow` and then `Colorize::bold` of `colored` on `text`,
/// formatted by `to_string`: the text bare, or between `ESC[1;33m` and
/// `ESC[0m`, as for `paint_bold`. The crate writes the emphasis before the
/// colour, whatever the order of the two calls.
#[verifier::external_body]
fn paint_yellow_bold(text: &str) -> (out: String)
    ensures
        out@ == text@ || out@ == colored_text(text@, Style::YellowBold),
{
    text.yellow().bold().to_string()
}

/// The characters to write for `span`. Plain text comes back as it is; a
/// styled span comes back bare or in its style, as `colored` decides.
pub fn render_span(span: &Span) -> (out: String)
    ensures
        renders(span@, out@),
        span.style == Style::Plain ==> out@ == span.text@,
{
    match span.style {
        Style::Plain => span.text.clone(),
        Style::Bold => paint_bold(span.text.as_str()),
        Style::Dimmed => paint_dimmed(span.text.as_str()),
        Style::Cyan => paint_cyan(span.text.as_str()),
        Style::Green => paint_green(span.text.as_str()),
        Style::YellowBold => paint_yellow_bold(span.text.as_str()),
    }
}

/// The texts of `parts`, one behind the other.
pub fn join(parts: &Vec<String>) -> (out: String)
    ensures
        out@ == parts.deep_view().flatten(),
{
    let mut out = String::new();
    let mut i: usize = 0;
    while i < parts.len()
        invariant
            i <= parts.len(),
            out@ == parts.deep_view().take(i as int).flatten(),
        decreases parts.len() - i,
    {
        out.append(parts[i].as_str());
        proof {
            let done = parts.deep_view().take(i as int);
            assert(parts.deep_view().take(i + 1) =~= done.push(parts[i as int]@));
            done.lemma_flatten_push(parts[i as int]@);
        }
        i = i + 1;
    }
    assert(parts.deep_view().take(i as int) =~= parts.deep_view());
    out
}

/// The characters to write for `line`, without a line break: what
/// `render_span` gives for each span, one behind the other.
pub fn render_line(line: &Line) -> (out: String)
    ensures
        renders_line(line@, out@),
{
    let mut parts: Vec<String> = Vec::new();
    let mut i: usize = 0;
    while i < line.spans.len()
        invariant
            i <= line.spans.len(),
            parts.len() == i,
            forall|j: int| 0 <= j < i ==> renders(line.spans@[j]@, (#[trigger] parts@[j])@),
        decreases line.spans.len() - i,
    {
        let part = render_span(&line.spans[i]);
        parts.push(part);
        i = i + 1;
    }
    let out = join(&parts);
    assert(renders_line(line@, out@)) by {
        let witness = parts.deep_view();
        assert(witness.len() == line@.len());
        assert(forall|j: int| 0 <= j < line@.len() ==> renders(line@[j], witness[j]));
        assert(out@ == witness.flatten());
    }
    out
}

} // verus!
