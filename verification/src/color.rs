//! The terminal control sequences that set a directory's line apart.

use vstd::prelude::*;

verus! {

/// The sequence that switches the foreground to green: escape, `[38;5;2m`.
pub open spec fn green_text() -> Seq<char> {
    seq!['\u{1b}', '[', '3', '8', ';', '5', ';', '2', 'm']
}

/// The sequence that switches the foreground back to the terminal's own
/// colour: escape, `[39m`.
pub open spec fn reset_text() -> Seq<char> {
    seq!['\u{1b}', '[', '3', '9', 'm']
}

/// What termion writes for `color::Fg(color::Green)`: the control sequence
/// introducer, then `38;5;`, the colour's number 2 and `m`.
#[verifier::external_body]
pub(crate) fn green_foreground() -> (text: String)
    ensures
        text@ == green_text(),
{
    format!("{}", termion::color::Fg(termion::color::Green))
}

/// What termion writes for `color::Fg(color::Reset)`: the control sequence
/// introducer, then `39m`.
#[verifier::external_body]
pub(crate) fn reset_foreground() -> (text: String)
    ensures
        text@ == reset_text(),
{
    format!("{}", termion::color::Fg(termion::color::Reset))
}

} // verus!
