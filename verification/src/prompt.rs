//! The prompt itself: a glyph that shows the editing mode, in a colour that
//! shows whether the last command succeeded.

use crate::paint::{paint, painted, Tint};
use crate::text::str_eq;
use vstd::prelude::*;
use vstd::string::*;

verus! {

/// The glyph at the end of the prompt.
#[derive(Clone, Copy, Debug, PartialEq, Eq, Structural)]
pub enum Glyph {
    /// Shown while text is being inserted.
    Insert,
    /// Shown in the command mode of the line editor.
    Command,
}

/// The name of the keymap of the command mode.
pub open spec fn command_keymap() -> Seq<char> {
    "vicmd"@
}

/// The exit code of a command that succeeded.
pub open spec fn no_error() -> Seq<char> {
    "0"@
}

/// The colour of a prompt after success, and of the command mode.
pub open spec fn calm() -> Tint {
    Tint::Rgb(33, 207, 95)
}

/// The colour of a prompt after a command that failed.
pub open spec fn alarm() -> Tint {
    Tint::Rgb(255, 0, 75)
}

/// The characters of a glyph.
pub open spec fn symbol_of(glyph: Glyph) -> Seq<char> {
    match glyph {
        Glyph::Insert => "❯"@,
        Glyph::Command => "❮"@,
    }
}

/// The glyph and its colour for a keymap and the last exit code. The command
/// mode has its own glyph, in the calm colour whatever the exit code; any
/// other keymap has the glyph of insertion, calm after success and in the
/// colour of alarm after anything else.
pub open spec fn glyph_for(keymap: Seq<char>, last_exit_code: Seq<char>) -> (Glyph, Tint) {
    if keymap == command_keymap() {
        (Glyph::Command, calm())
    } else if last_exit_code == no_error() {
        (Glyph::Insert, calm())
    } else {
        (Glyph::Insert, alarm())
    }
}

/// The segment that names the virtual environment; empty for an empty name.
pub open spec fn venv_segment(name: Seq<char>) -> Seq<char> {
    if name.len() == 0 {
        Seq::empty()
    } else {
        "%F{11}|"@ + name + "|%f "@
    }
}

/// The whole prompt.
pub open spec fn line(keymap: Seq<char>, last_exit_code: Seq<char>, venv: Seq<char>) -> Seq<char> {
    let (glyph, tint) = glyph_for(keymap, last_exit_code);
    venv_segment(venv) + painted(tint, symbol_of(glyph)) + " "@
}

impl Glyph {
    /// The characters of the glyph.
    pub fn symbol(self) -> (s: &'static str)
        ensures
            s@ == symbol_of(self),
    {
        match self {
            Glyph::Insert => "❯",
            Glyph::Command => "❮",
        }
    }
}

/// Chooses the glyph and its colour.
pub fn select_glyph(keymap: &str, last_exit_code: &str) -> (choice: (Glyph, Tint))
    ensures
        choice == glyph_for(keymap@, last_exit_code@),
{
    if str_eq(keymap, "vicmd") {
        (Glyph::Command, Tint::Rgb(33, 207, 95))
    } else if str_eq(last_exit_code, "0") {
        (Glyph::Insert, Tint::Rgb(33, 207, 95))
    } else {
        (Glyph::Insert, Tint::Rgb(255, 0, 75))
    }
}

/// Builds the prompt: the segment of the virtual environment, if one is
/// named, then the glyph in its colour and a space.
pub fn render(keymap: &str, last_exit_code: &str, venv: &str) -> (out: String)
    ensures
        out@ == line(keymap@, last_exit_code@, venv@),
{
    let (glyph, tint) = select_glyph(keymap, last_exit_code);
    let mut out = String::new();
    if !venv.is_empty() {
        out.append("%F{11}|");
        out.append(venv);
        out.append("|%f ");
    }
    assert(out@ =~= venv_segment(venv@));
    out.append(paint(tint, glyph.symbol()).as_str());
    out.append(" ");
    out
}

} // verus!
