//! The colours and text styles that the widgets draw with.

use vstd::prelude::*;

verus! {

/// A terminal colour.
#[derive(Debug, Clone, Copy, PartialEq, Eq, Structural)]
pub enum Color {
    DarkGray,
    Yellow,
    Red,
    Green,
    Cyan,
}

/// A text style: a foreground colour, or the terminal's own.
#[derive(Debug, Clone, Copy, PartialEq, Eq, Structural)]
pub struct Style {
    pub fg: Option<Color>,
}

impl Style {
    /// The terminal's own style.
    pub fn plain() -> (s: Style)
        ensures
            s.fg is None,
    {
        Style { fg: None }
    }

    /// Text drawn in `color`.
    pub fn fg(color: Color) -> (s: Style)
        ensures
            s.fg == Some(color),
    {
        Style { fg: Some(color) }
    }
}

} // verus!
