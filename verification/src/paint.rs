//! Colouring text for a terminal.
//!
//! The escape sequences come from the crate `ansi_term`. What it writes for a
//! given style and text is not restated here: the functions below give its
//! output a name, and the rest of the library speaks of that name.

use ansi_term::{ANSIString, ANSIStrings, Colour, Style};
use vstd::prelude::*;

verus! {

/// The way a piece of text is shown.
#[derive(Clone, Copy, Debug, PartialEq, Eq, Structural)]
pub enum Tint {
    /// As the terminal shows text by default.
    Plain,
    /// Red.
    Red,
    /// Red and bold.
    RedBold,
    /// Green.
    Green,
    /// Blue.
    Blue,
    /// Purple.
    Purple,
    /// Cyan.
    Cyan,
    /// A colour given by its red, green and blue parts.
    Rgb(u8, u8, u8),
}

/// A piece of text and the way to show it.
#[derive(Clone, Debug, PartialEq, Eq)]
pub struct Span {
    /// How the text is shown.
    pub tint: Tint,
    /// The text.
    pub text: String,
}

impl View for Span {
    type V = (Tint, Seq<char>);

    open spec fn view(&self) -> (Tint, Seq<char>) {
        (self.tint, self.text@)
    }
}

/// The views of a sequence of spans, in order.
pub open spec fn span_views(spans: Seq<Span>) -> Seq<(Tint, Seq<char>)> {
    spans.map_values(|s: Span| s@)
}

/// What `ansi_term` writes for one piece of text in one style: the text,
/// between the escape sequences that switch the style on and off.
pub uninterp spec fn painted(tint: Tint, text: Seq<char>) -> Seq<char>;

/// What `ansi_term` writes for a run of pieces of text, each in its own style,
/// with no more escape sequences between them than the change of style needs.
pub uninterp spec fn painted_run(spans: Seq<(Tint, Seq<char>)>) -> Seq<char>;

/// Colours one piece of text.
///
/// Trusted: the body paints `text` with `Style::paint` of `ansi_term`, in the
/// style that `tint` stands for, and formats the `ANSIString` it gets. The
/// contract claims only that the output is a function of the tint and the
/// text, to which it gives the name `painted`.
#[verifier::external_body]
pub(crate) fn paint(tint: Tint, text: &str) -> (out: String)
    ensures
        out@ == painted(tint, text@),
{
    let style = match tint {
        Tint::Plain => Style::new(),
        Tint::Red => Colour::Red.normal(),
        Tint::RedBold => Colour::Red.bold(),
        Tint::Green => Colour::Green.normal(),
        Tint::Blue => Colour::Blue.normal(),
        Tint::Purple => Colour::Purple.normal(),
        Tint::Cyan => Colour::Cyan.normal(),
        Tint::Rgb(r, g, b) => Colour::RGB(r, g, b).normal(),
    };
    style.paint(text).to_string()
}

/// Colours a run of pieces of text and joins them.
///
/// Trusted: the body paints each span as `paint` does and formats the
/// `ANSIStrings` made of them, in order. The contract claims only that the
/// output is a function of the tints and the texts, in their order, to which
/// it gives the name `painted_run`.
#[verifier::external_body]
pub(crate) fn paint_run(spans: &Vec<Span>) -> (out: String)
    ensures
        out@ == painted_run(span_views(spans@)),
{
    let mut parts: Vec<ANSIString> = Vec::new();
    for span in spans.iter() {
        parts.push(match span.tint {
            Tint::Plain => Style::new(),
            Tint::Red => Colour::Red.normal(),
            Tint::RedBold => Colour::Red.bold(),
            Tint::Green => Colour::Green.normal(),
            Tint::Blue => Colour::Blue.normal(),
            Tint::Purple => Colour::Purple.normal(),
            Tint::Cyan => Colour::Cyan.normal(),
            Tint::Rgb(r, g, b) => Colour::RGB(r, g, b).normal(),
        }.paint(span.text.as_str()));
    }
    ANSIStrings(&parts).to_string()
}

} // verus!
