//! Draw commands: the data the simulation hands to the presentation shell.
//!
//! The library never draws; each tick it returns a list of these commands
//! and the shell executes them against whatever renderer it owns. Text is
//! carried as a message value (with the score where one is shown) so that
//! the wording and formatting stay a presentation concern.
use vstd::prelude::*;

verus! {

/// The palette the game draws with; the shell maps each name to its
/// renderer's color values.
#[derive(Clone, Copy, Debug, PartialEq, Eq, Structural)]
pub enum Color {
    Green,
    Black,
    Red,
    Yellow,
    Navy,
}

/// A line of text the game asks the shell to show.
#[derive(Clone, Copy, Debug, PartialEq, Eq, Structural)]
pub enum Msg {
    /// The in-play hint naming the flap key.
    FlapHint,
    /// The in-play score readout, carrying the score to show.
    ScoreLine { score: i32 },
    /// The main menu's title line.
    MenuTitle,
    /// The main menu's "play" choice.
    MenuPlay,
    /// The main menu's "quit" choice.
    MenuQuit,
    /// The end screen's title line.
    DeadTitle,
    /// The end screen's final-score line, carrying the score to show.
    DeadScore { score: i32 },
    /// The end screen's "main menu" choice.
    DeadMenu,
    /// The end screen's "play again" choice.
    DeadPlayAgain,
    /// The end screen's "quit" choice.
    DeadQuit,
}

/// One draw primitive: a screen clear, a single glyph cell, or a line of
/// text, positioned or centered.
#[derive(Clone, Copy, Debug, PartialEq, Eq, Structural)]
pub enum DrawCmd {
    /// Clear the whole screen.
    Clear,
    /// Clear the whole screen to a background color.
    ClearBg { bg: Color },
    /// One glyph cell at screen position `(x, y)`.
    Glyph { x: i32, y: i32, fg: Color, bg: Color, glyph: u16 },
    /// A text line starting at screen position `(x, y)`.
    Text { x: i32, y: i32, msg: Msg },
    /// A text line centered horizontally at row `y`.
    TextCentered { y: i32, msg: Msg },
}

/// The code-page-437 glyph that `bracket_lib`'s conversion table assigns
/// to a character; the result depends on the character alone.
pub uninterp spec fn cp437_of(c: char) -> u16;

/// Relies on bracket_lib's `to_cp437`: a pure match from a character to
/// its code-page-437 glyph code.
#[verifier::external_body]
pub(crate) fn glyph_of(c: char) -> (g: u16)
    ensures
        g == cp437_of(c),
{
    bracket_lib::prelude::to_cp437(c)
}

} // verus!
