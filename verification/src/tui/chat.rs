//! The chat pane: the messages of the session, newest last, and how far the
//! view is scrolled back from the newest.

use vstd::prelude::*;
use crate::text::{decimal, push_decimal};
use crate::tui::style::{Color, Style};

verus! {

/// How many lines one scroll step moves.
pub const SCROLL_STEP: usize = 3;

/// Who a chat message comes from.
#[derive(Debug, Clone, Copy, PartialEq, Eq, Structural)]
pub enum MessageRole {
    User,
    System,
    Error,
}

/// One message of the chat.
#[derive(Debug, Clone)]
pub struct ChatMessage {
    pub text: String,
    pub role: MessageRole,
}

/// One drawn line of the chat: a marker that shows the role, then the text.
#[derive(Debug, Clone)]
pub struct ChatLine {
    pub prefix: String,
    pub prefix_style: Style,
    pub text: String,
    pub text_style: Style,
}

/// The chat pane.
#[derive(Debug, Clone)]
pub struct ChatWidget {
    pub messages: Vec<ChatMessage>,
    pub scroll_offset: usize,
    pub focused: bool,
}

/// `a - b`, or 0 when `b > a`.
pub open spec fn sat_sub(a: int, b: int) -> int {
    if a > b {
        a - b
    } else {
        0
    }
}

/// The smaller of `a` and `b`.
pub open spec fn min(a: int, b: int) -> int {
    if a < b {
        a
    } else {
        b
    }
}

/// The marker drawn before a message of `role`.
pub open spec fn role_prefix(role: MessageRole) -> Seq<char> {
    match role {
        MessageRole::User => "You: "@,
        MessageRole::System => "  "@ + seq!['\u{2713}', ' '],
        MessageRole::Error => "  "@ + seq!['\u{2717}', ' '],
    }
}

/// The colour a message of `role` is drawn in.
pub open spec fn role_color(role: MessageRole) -> Color {
    match role {
        MessageRole::User => Color::Cyan,
        MessageRole::System => Color::Green,
        MessageRole::Error => Color::Red,
    }
}

/// The title of a chat pane that holds `count` messages and is scrolled
/// back by `offset`, such as ` Chat (4) ` or ` Chat (4) ↑3  `.
pub open spec fn chat_title(count: nat, offset: nat) -> Seq<char> {
    " Chat ("@ + decimal(count) + ")"@ + (if offset > 0 {
        seq![' ', '\u{2191}'] + decimal(offset) + " "@
    } else {
        Seq::empty()
    }) + " "@
}

/// `after` is `before` with `msg` added after all other messages and the
/// view scrolled to the newest.
pub open spec fn message_added(before: ChatWidget, msg: ChatMessage, after: ChatWidget) -> bool {
    &&& after.messages@ == before.messages@.push(msg)
    &&& after.scroll_offset == 0
    &&& after.focused == before.focused
}

/// `after` is `before` scrolled back by one step, but no further back than
/// the oldest message.
pub open spec fn scrolled_up(before: ChatWidget, after: ChatWidget) -> bool {
    &&& after.scroll_offset == min(
        before.scroll_offset + SCROLL_STEP,
        sat_sub(before.messages@.len() as int, 1),
    )
    &&& after.messages == before.messages
    &&& after.focused == before.focused
}

/// `after` is `before` scrolled forward by one step, but no further than
/// the newest message.
pub open spec fn scrolled_down(before: ChatWidget, after: ChatWidget) -> bool {
    &&& after.scroll_offset == sat_sub(before.scroll_offset as int, SCROLL_STEP as int)
    &&& after.messages == before.messages
    &&& after.focused == before.focused
}

/// The view is scrolled back no further than the oldest message.
pub open spec fn scroll_in_range(w: ChatWidget) -> bool {
    w.scroll_offset <= sat_sub(w.messages@.len() as int, 1)
}

impl MessageRole {
    /// The marker drawn before a message of this role.
    pub fn prefix(&self) -> (marker: String)
        ensures
            marker@ == role_prefix(*self),
    {
        match self {
            MessageRole::User => String::from_str("You: "),
            MessageRole::System => {
                let mut p = String::from_str("  ");
                p.push('\u{2713}');
                p.push(' ');
                p
            },
            MessageRole::Error => {
                let mut p = String::from_str("  ");
                p.push('\u{2717}');
                p.push(' ');
                p
            },
        }
    }

    /// The colour a message of this role is drawn in.
    pub fn color(&self) -> (c: Color)
        ensures
            c == role_color(*self),
    {
        match self {
            MessageRole::User => Color::Cyan,
            MessageRole::System => Color::Green,
            MessageRole::Error => Color::Red,
        }
    }
}

impl ChatWidget {
    /// An empty, unscrolled, unfocused chat.
    pub fn new() -> (w: Self)
        ensures
            w.messages@.len() == 0,
            w.scroll_offset == 0,
            !w.focused,
            scroll_in_range(w),
    {
        ChatWidget { messages: Vec::new(), scroll_offset: 0, focused: false }
    }

    /// Adds a message after all others and scrolls to the newest.
    pub fn add_message(&mut self, text: String, role: MessageRole)
        ensures
            message_added(*old(self), ChatMessage { text, role }, *final(self)),
    {
        self.messages.push(ChatMessage { text, role });
        self.scroll_offset = 0;
    }

    /// Scrolls back by one step, but never past the oldest message.
    pub fn scroll_up(&mut self)
        requires
            old(self).scroll_offset + SCROLL_STEP <= usize::MAX,
        ensures
            scrolled_up(*old(self), *final(self)),
    {
        let max = self.messages.len().saturating_sub(1);
        let up = self.scroll_offset + SCROLL_STEP;
        self.scroll_offset = if up < max { up } else { max };
    }

    /// Scrolls forward by one step, but never past the newest message.
    pub fn scroll_down(&mut self)
        ensures
            scrolled_down(*old(self), *final(self)),
    {
        self.scroll_offset = self.scroll_offset.saturating_sub(SCROLL_STEP);
    }

    /// Whether the view is scrolled back from the newest message.
    pub fn is_scrolled(&self) -> (r: bool)
        ensures
            r == (self.scroll_offset > 0),
    {
        self.scroll_offset > 0
    }

    /// The title of the pane: the number of messages, and how far the view
    /// is scrolled back when it is.
    pub fn title(&self) -> (t: String)
        ensures
            t@ == chat_title(self.messages@.len(), self.scroll_offset as nat),
    {
        let mut t = String::from_str(" Chat (");
        push_decimal(&mut t, self.messages.len() as u64);
        t.append(")");
        if self.is_scrolled() {
            t.push(' ');
            t.push('\u{2191}');
            push_decimal(&mut t, self.scroll_offset as u64);
            t.append(" ");
        }
        t.append(" ");
        t
    }

    /// The style of the border: yellow when the pane has the focus.
    pub fn border_style(&self) -> (s: Style)
        ensures
            s.fg == (if self.focused {
                Some(Color::Yellow)
            } else {
                None
            }),
    {
        if self.focused {
            Style::fg(Color::Yellow)
        } else {
            Style::plain()
        }
    }

    /// The first line shown: the scroll offset, but no further back than
    /// the oldest message, each taken modulo 2^16 as a terminal row.
    pub fn scroll_row(&self) -> (row: u16)
        ensures
            row == min(
                self.scroll_offset as int % 0x10000,
                sat_sub(self.messages@.len() as int, 1) % 0x10000,
            ),
    {
        let so = self.scroll_offset;
        let l = self.messages.len().saturating_sub(1);
        let offset = so as u16;
        let last = l as u16;
        assert(offset == so % 0x10000) by (bit_vector)
            requires
                offset == so as u16,
        ;
        assert(last == l % 0x10000) by (bit_vector)
            requires
                last == l as u16,
        ;
        if offset < last {
            offset
        } else {
            last
        }
    }

    /// The lines of the pane, one per message, oldest first: the role's
    /// marker in dark grey, then the text in the role's colour.
    pub fn lines(&self) -> (lines: Vec<ChatLine>)
        ensures
            lines@.len() == self.messages@.len(),
            forall|i: int|
                0 <= i < lines@.len() ==> {
                    let line = #[trigger] lines@[i];
                    let msg = self.messages@[i];
                    &&& line.prefix@ == role_prefix(msg.role)
                    &&& line.prefix_style.fg == Some(Color::DarkGray)
                    &&& line.text == msg.text
                    &&& line.text_style.fg == Some(role_color(msg.role))
                },
    {
        let mut lines: Vec<ChatLine> = Vec::new();
        let mut i: usize = 0;
        while i < self.messages.len()
            invariant
                i <= self.messages@.len(),
                lines@.len() == i,
                forall|j: int|
                    0 <= j < i ==> {
                        let line = #[trigger] lines@[j];
                        let msg = self.messages@[j];
                        &&& line.prefix@ == role_prefix(msg.role)
                        &&& line.prefix_style.fg == Some(Color::DarkGray)
                        &&& line.text == msg.text
                        &&& line.text_style.fg == Some(role_color(msg.role))
                    },
            decreases self.messages.len() - i,
        {
            let msg = &self.messages[i];
            lines.push(
                ChatLine {
                    prefix: msg.role.prefix(),
                    prefix_style: Style::fg(Color::DarkGray),
                    text: msg.text.clone(),
                    text_style: Style::fg(msg.role.color()),
                },
            );
            i = i + 1;
        }
        lines
    }
}

/// Scrolling back never goes past the oldest message, and scrolling
/// forward never past the newest; a step back that stays within the
/// messages is undone by a step forward.
pub proof fn lemma_scroll_bounds(offset: usize, count: nat)
    requires
        offset + SCROLL_STEP <= usize::MAX,
    ensures
        min(offset + SCROLL_STEP, sat_sub(count as int, 1)) <= sat_sub(count as int, 1),
        min(offset + SCROLL_STEP, sat_sub(count as int, 1)) >= 0,
        sat_sub(offset as int, SCROLL_STEP as int) <= offset,
        offset + SCROLL_STEP <= sat_sub(count as int, 1) ==> sat_sub(
            min(offset + SCROLL_STEP, sat_sub(count as int, 1)),
            SCROLL_STEP as int,
        ) == offset,
{
}

/// A new chat is scrolled within its messages, and adding a message or
/// scrolling either way keeps it so: from `ChatWidget::new`, whatever the
/// sequence of these calls, the view never points past the oldest message.
/// Within range, a step back never overflows while fewer than
/// `usize::MAX - 2` messages are held.
pub proof fn lemma_scroll_stays_in_range(before: ChatWidget, after: ChatWidget)
    requires
        scroll_in_range(before),
        scrolled_up(before, after) || scrolled_down(before, after) || exists|msg: ChatMessage|
            message_added(before, msg, after),
    ensures
        scroll_in_range(after),
        before.messages@.len() <= usize::MAX - 2 ==> before.scroll_offset + SCROLL_STEP
            <= usize::MAX,
{
}

/// A step back moves the view three messages further back, or to the
/// oldest message when fewer than three lie beyond it; it never moves the
/// view forward. A step forward moves it three messages nearer the newest,
/// or to the newest; it never moves the view back. The messages stay.
pub proof fn lemma_scroll_steps(before: ChatWidget, up: ChatWidget, down: ChatWidget)
    requires
        scroll_in_range(before),
        scrolled_up(before, up),
        scrolled_down(before, down),
    ensures
        ({
            let n = before.messages@.len() as int;
            let oldest = if n == 0 {
                0
            } else {
                n - 1
            };
            let o = before.scroll_offset as int;
            &&& o + 3 <= oldest ==> up.scroll_offset == o + 3
            &&& o + 3 > oldest ==> up.scroll_offset == oldest
            &&& up.scroll_offset >= o
            &&& o >= 3 ==> down.scroll_offset == o - 3
            &&& o < 3 ==> down.scroll_offset == 0
            &&& down.scroll_offset <= o
            &&& up.messages@ == before.messages@
            &&& down.messages@ == before.messages@
        }),
{
}

impl Default for ChatWidget {
    fn default() -> (w: Self)
        ensures
            w.messages@.len() == 0,
            w.scroll_offset == 0,
            !w.focused,
    {
        ChatWidget::new()
    }
}

} // verus!
