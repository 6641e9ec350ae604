//! Styled pieces of terminal text.
//!
//! A message is a sequence of [`Span`]s. A span holds its text and the look it
//! is to be printed with. [`paint`] hands a span to `colored`, which turns the
//! look into escape codes when the span is printed.

use colored::{ColoredString, Colorize};
use vstd::prelude::*;
use vstd::string::*;

verus! {

/// A text that `colored` prints with a look. Nothing of its inside is known
/// here; it is read through [`look`].
#[verifier::external_type_specification]
#[verifier::external_body]
pub struct ExColoredString(colored::ColoredString);

/// What a `ColoredString` holds, as far as a span can say it: its text, its
/// foreground colour, and whether it is bold, italic and underlined.
pub uninterp spec fn look(text: ColoredString) -> SpanView;

/// The foreground colour of a span.
#[derive(Clone, Copy, Debug, PartialEq, Eq, Structural)]
pub enum Tint {
    /// The terminal's own colour.
    Plain,
    Cyan,
    Yellow,
    Green,
    Red,
    Blue,
}

/// A piece of text and the look it is printed with.
#[derive(Clone, Debug, PartialEq, Eq)]
pub struct Span {
    pub text: String,
    pub tint: Tint,
    pub bold: bool,
    pub italic: bool,
    pub underline: bool,
}

/// What a [`Span`] is: its characters and its look.
pub struct SpanView {
    pub text: Seq<char>,
    pub tint: Tint,
    pub bold: bool,
    pub italic: bool,
    pub underline: bool,
}

impl SpanView {
    /// The text with no colour and no style.
    pub open spec fn of(text: Seq<char>) -> SpanView {
        SpanView { text, tint: Tint::Plain, bold: false, italic: false, underline: false }
    }

    pub open spec fn cyan(self) -> SpanView {
        SpanView { tint: Tint::Cyan, ..self }
    }

    pub open spec fn yellow(self) -> SpanView {
        SpanView { tint: Tint::Yellow, ..self }
    }

    pub open spec fn green(self) -> SpanView {
        SpanView { tint: Tint::Green, ..self }
    }

    pub open spec fn red(self) -> SpanView {
        SpanView { tint: Tint::Red, ..self }
    }

    pub open spec fn blue(self) -> SpanView {
        SpanView { tint: Tint::Blue, ..self }
    }

    pub open spec fn bold(self) -> SpanView {
        SpanView { bold: true, ..self }
    }

    pub open spec fn italic(self) -> SpanView {
        SpanView { italic: true, ..self }
    }

    pub open spec fn underline(self) -> SpanView {
        SpanView { underline: true, ..self }
    }
}

impl View for Span {
    type V = SpanView;

    open spec fn view(&self) -> SpanView {
        SpanView {
            text: self.text@,
            tint: self.tint,
            bold: self.bold,
            italic: self.italic,
            underline: self.underline,
        }
    }
}

impl DeepView for Span {
    type V = SpanView;

    open spec fn deep_view(&self) -> SpanView {
        self@
    }
}

impl Span {
    /// A span of `text` with no colour and no style.
    pub fn of(text: &str) -> (span: Span)
        ensures
            span@ == SpanView::of(text@),
    {
        Span {
            text: String::from_str(text),
            tint: Tint::Plain,
            bold: false,
            italic: false,
            underline: false,
        }
    }

    pub fn cyan(self) -> (span: Span)
        ensures
            span@ == self@.cyan(),
    {
        Span { tint: Tint::Cyan, ..self }
    }

    pub fn yellow(self) -> (span: Span)
        ensures
            span@ == self@.yellow(),
    {
        Span { tint: Tint::Yellow, ..self }
    }

    pub fn green(self) -> (span: Span)
        ensures
            span@ == self@.green(),
    {
        Span { tint: Tint::Green, ..self }
    }

    pub fn red(self) -> (span: Span)
        ensures
            span@ == self@.red(),
    {
        Span { tint: Tint::Red, ..self }
    }

    pub fn blue(self) -> (span: Span)
        ensures
            span@ == self@.blue(),
    {
        Span { tint: Tint::Blue, ..self }
    }

    pub fn bold(self) -> (span: Span)
        ensures
            span@ == self@.bold(),
    {
        Span { bold: true, ..self }
    }

    pub fn italic(self) -> (span: Span)
        ensures
            span@ == self@.italic(),
    {
        Span { italic: true, ..self }
    }

    pub fn underline(self) -> (span: Span)
        ensures
            span@ == self@.underline(),
    {
        Span { underline: true, ..self }
    }
}

/// The text with no colour and no style.
///
/// Calls `ColoredString::from`, which keeps the text and sets neither a
/// colour nor a style.
#[verifier::external_body]
fn colored_of(text: &str) -> (out: ColoredString)
    ensures
        look(out) == SpanView::of(text@),
{
    ColoredString::from(text)
}

/// Calls `Colorize::cyan`, which sets the foreground colour to cyan and
/// leaves the text and the styles as they are.
#[verifier::external_body]
fn colored_cyan(text: ColoredString) -> (out: ColoredString)
    ensures
        look(out) == look(text).cyan(),
{
    text.cyan()
}

/// Calls `Colorize::yellow`, which sets the foreground colour to yellow and
/// leaves the text and the styles as they are.
#[verifier::external_body]
fn colored_yellow(text: ColoredString) -> (out: ColoredString)
    ensures
        look(out) == look(text).yellow(),
{
    text.yellow()
}

/// Calls `Colorize::green`, which sets the foreground colour to green and
/// leaves the text and the styles as they are.
#[verifier::external_body]
fn colored_green(text: ColoredString) -> (out: ColoredString)
    ensures
        look(out) == look(text).green(),
{
    text.green()
}

/// Calls `Colorize::red`, which sets the foreground colour to red and leaves
/// the text and the styles as they are.
#[verifier::external_body]
fn colored_red(text: ColoredString) -> (out: ColoredString)
    ensures
        look(out) == look(text).red(),
{
    text.red()
}

/// Calls `Colorize::blue`, which sets the foreground colour to blue and
/// leaves the text and the styles as they are.
#[verifier::external_body]
fn colored_blue(text: ColoredString) -> (out: ColoredString)
    ensures
        look(out) == look(text).blue(),
{
    text.blue()
}

/// Calls `Colorize::bold`, which switches the bold style on and leaves the
/// text, the colour and the other styles as they are.
#[verifier::external_body]
fn colored_bold(text: ColoredString) -> (out: ColoredString)
    ensures
        look(out) == look(text).bold(),
{
    text.bold()
}

/// Calls `Colorize::italic`, which switches the italic style on and leaves
/// the text, the colour and the other styles as they are.
#[verifier::external_body]
fn colored_italic(text: ColoredString) -> (out: ColoredString)
    ensures
        look(out) == look(text).italic(),
{
    text.italic()
}

/// Calls `Colorize::underline`, which switches the underline style on and
/// leaves the text, the colour and the other styles as they are.
#[verifier::external_body]
fn colored_underline(text: ColoredString) -> (out: ColoredString)
    ensures
        look(out) == look(text).underline(),
{
    text.underline()
}

/// The span as `colored` prints it: the same text, with the same look.
pub fn paint(span: &Span) -> (out: ColoredString)
    ensures
        look(out) == span@,
{
    let text = colored_of(span.text.as_str());
    let text = match span.tint {
        Tint::Plain => text,
        Tint::Cyan => colored_cyan(text),
        Tint::Yellow => colored_yellow(text),
        Tint::Green => colored_green(text),
        Tint::Red => colored_red(text),
        Tint::Blue => colored_blue(text),
    };
    let text = if span.bold {
        colored_bold(text)
    } else {
        text
    };
    let text = if span.italic {
        colored_italic(text)
    } else {
        text
    };
    if span.underline {
        colored_underline(text)
    } else {
        text
    }
}

} // verus!
