//! The status line at the foot of the screen.

use vstd::prelude::*;
use crate::tui::style::{Color, Style};

verus! {

/// The status line: a message and the style it is drawn in.
#[derive(Debug, Clone)]
pub struct StatusWidget {
    pub message: String,
    pub style: Style,
}

/// The message shown before the first prompt.
pub open spec fn welcome_message() -> Seq<char> {
    "Ready  |  Type a prompt and press Enter to generate  |  Tab: focus  |  Esc: quit"@
}

/// The message shown when the application is ready for the next prompt.
pub open spec fn ready_message() -> Seq<char> {
    "Ready  |  Tab: focus  |  PgUp/PgDn: scroll  |  Esc: quit"@
}

impl StatusWidget {
    /// The status line before the first prompt, in dark grey.
    pub fn new() -> (w: Self)
        ensures
            w.message@ == welcome_message(),
            w.style == (Style { fg: Some(Color::DarkGray) }),
    {
        StatusWidget {
            message: String::from_str(
                "Ready  |  Type a prompt and press Enter to generate  |  Tab: focus  |  Esc: quit",
            ),
            style: Style::fg(Color::DarkGray),
        }
    }

    /// Shows that the application is ready, in dark grey.
    pub fn set_ready(&mut self)
        ensures
            final(self).message@ == ready_message(),
            final(self).style == (Style { fg: Some(Color::DarkGray) }),
    {
        self.message = String::from_str("Ready  |  Tab: focus  |  PgUp/PgDn: scroll  |  Esc: quit");
        self.style = Style::fg(Color::DarkGray);
    }

    /// Shows `msg` as work in progress, in yellow.
    pub fn set_loading(&mut self, msg: String)
        ensures
            final(self).message == msg,
            final(self).style == (Style { fg: Some(Color::Yellow) }),
    {
        self.message = msg;
        self.style = Style::fg(Color::Yellow);
    }

    /// Shows `msg` as an error, in red.
    pub fn set_error(&mut self, msg: String)
        ensures
            final(self).message == msg,
            final(self).style == (Style { fg: Some(Color::Red) }),
    {
        self.message = msg;
        self.style = Style::fg(Color::Red);
    }

    /// Shows `msg` as a success, in green.
    pub fn set_success(&mut self, msg: String)
        ensures
            final(self).message == msg,
            final(self).style == (Style { fg: Some(Color::Green) }),
    {
        self.message = msg;
        self.style = Style::fg(Color::Green);
    }
}

impl Default for StatusWidget {
    fn default() -> (w: Self)
        ensures
            w.message@ == welcome_message(),
            w.style == (Style { fg: Some(Color::DarkGray) }),
    {
        StatusWidget::new()
    }
}

} // verus!
