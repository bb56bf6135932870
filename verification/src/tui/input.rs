//! The prompt input line: the text typed so far and a cursor into it.
//!
//! The cursor is a byte position in the UTF-8 encoding of the text. Typing
//! moves it one byte forward, and deleting one byte back, whatever the width
//! of the character; a position that does not fall on a character boundary
//! cannot be typed or deleted at.

use vstd::prelude::*;
use vstd::utf8::{
    encode_scalar,
    encode_utf8,
    encode_utf8_decode_utf8,
    encode_utf8_first_scalar,
    encode_utf8_valid_utf8,
    is_char_boundary,
    is_ascii_chars,
    is_ascii_chars_encode_utf8,
    is_char_boundary_iff_is_leading_byte,
    is_char_boundary_start_end_of_seq,
    is_leading_byte_width_1,
    length_of_first_scalar,
    valid_first_scalar,
    valid_utf8,
};
use crate::tui::style::{Color, Style};

verus! {

/// The prompt input line.
#[derive(Debug, Clone)]
pub struct InputWidget {
    pub input: String,
    pub cursor: usize,
    pub focused: bool,
    pub disabled: bool,
}

/// The UTF-8 bytes of the text typed so far.
pub open spec fn input_bytes(w: InputWidget) -> Seq<u8> {
    encode_utf8(w.input@)
}

/// A character can be typed at the cursor: it lies on a character boundary.
pub open spec fn can_insert(w: InputWidget) -> bool {
    &&& is_char_boundary(input_bytes(w), w.cursor as int)
    &&& w.cursor < usize::MAX
}

/// `after` is `before` with `c` typed at the cursor: its bytes go in at the
/// cursor, and the cursor moves one byte forward.
pub open spec fn inserted(before: InputWidget, c: char, after: InputWidget) -> bool {
    let b = input_bytes(before);
    &&& input_bytes(after) == b.take(before.cursor as int) + encode_scalar(c as u32) + b.skip(
        before.cursor as int,
    )
    &&& after.cursor == before.cursor + 1
    &&& after.focused == before.focused
    &&& after.disabled == before.disabled
}

/// The character before the cursor can be deleted: the cursor is at the
/// start, or the byte before it starts a character.
pub open spec fn can_delete(w: InputWidget) -> bool {
    w.cursor > 0 ==> {
        &&& is_char_boundary(input_bytes(w), w.cursor - 1)
        &&& w.cursor - 1 < input_bytes(w).len()
    }
}

/// `after` is `before` after a deletion: at the start nothing changes;
/// otherwise the cursor moves one byte back and the character whose bytes
/// start there is removed.
pub open spec fn deleted(before: InputWidget, after: InputWidget) -> bool {
    let b = input_bytes(before);
    let at = before.cursor - 1;
    &&& after.focused == before.focused
    &&& after.disabled == before.disabled
    &&& if before.cursor == 0 {
        after.input@ == before.input@ && after.cursor == 0
    } else {
        &&& after.cursor == at
        &&& input_bytes(after) == b.take(at) + b.skip(at + length_of_first_scalar(b.skip(at)))
    }
}

impl InputWidget {
    /// An empty, enabled, unfocused input line.
    pub fn new() -> (w: Self)
        ensures
            w.input@ == Seq::<char>::empty(),
            w.cursor == 0,
            !w.focused,
            !w.disabled,
    {
        InputWidget { input: String::new(), cursor: 0, focused: false, disabled: false }
    }

    /// Types `c` at the cursor and moves the cursor one byte forward.
    pub fn insert_char(&mut self, c: char)
        requires
            can_insert(*old(self)),
        ensures
            inserted(*old(self), c, *final(self)),
    {
        self.input.insert(self.cursor, c);
        self.cursor = self.cursor + 1;
    }

    /// Moves the cursor one byte back and deletes the character that
    /// starts there; does nothing at the start of the line.
    pub fn delete_char(&mut self)
        requires
            can_delete(*old(self)),
        ensures
            deleted(*old(self), *final(self)),
    {
        if self.cursor > 0 {
            self.cursor = self.cursor - 1;
            let ch = self.input.remove(self.cursor);
            proof {
                let b = encode_utf8(old(self).input@);
                let at = self.cursor as int;
                let e = encode_scalar(ch as u32);
                lemma_scalar_bytes(ch);
                assert(b.skip(at)[0] == e[0]) by {
                    assert(b.subrange(at, at + e.len())[0] == e[0]);
                }
            }
        }
    }

    /// Empties the line and puts the cursor at its start.
    pub fn clear(&mut self)
        ensures
            final(self).input@ == Seq::<char>::empty(),
            final(self).cursor == 0,
            final(self).focused == old(self).focused,
            final(self).disabled == old(self).disabled,
    {
        self.input.clear();
        self.cursor = 0;
    }

    /// Hands out the text typed so far, leaving the line empty with the
    /// cursor at its start.
    pub fn take_input(&mut self) -> (text: String)
        ensures
            text == old(self).input,
            final(self).input@ == Seq::<char>::empty(),
            final(self).cursor == 0,
            final(self).focused == old(self).focused,
            final(self).disabled == old(self).disabled,
    {
        let mut text = String::new();
        std::mem::swap(&mut text, &mut self.input);
        self.cursor = 0;
        text
    }

    /// The title of the line: it says when input is disabled.
    pub fn title(&self) -> (t: String)
        ensures
            t@ == (if self.disabled {
                " Input (disabled) "@
            } else {
                " Input "@
            }),
    {
        if self.disabled {
            String::from_str(" Input (disabled) ")
        } else {
            String::from_str(" Input ")
        }
    }

    /// The style of the border: dark grey when disabled, else yellow when
    /// focused, else plain.
    pub fn border_style(&self) -> (s: Style)
        ensures
            s.fg == (if self.disabled {
                Some(Color::DarkGray)
            } else if self.focused {
                Some(Color::Yellow)
            } else {
                None
            }),
    {
        if self.disabled {
            Style::fg(Color::DarkGray)
        } else if self.focused {
            Style::fg(Color::Yellow)
        } else {
            Style::plain()
        }
    }

    /// The text shown: a `>` prompt followed by what was typed.
    pub fn display_text(&self) -> (t: String)
        ensures
            t@ == ">"@ + self.input@,
    {
        let mut t = String::from_str(">");
        t.append(self.input.as_str());
        t
    }
}

/// A character boundary lies within the bytes, both ends included.
proof fn lemma_char_boundary_in_range(bytes: Seq<u8>, i: int)
    requires
        valid_utf8(bytes),
        is_char_boundary(bytes, i),
    ensures
        0 <= i <= bytes.len(),
{
    reveal_with_fuel(is_char_boundary, 1);
}

/// The UTF-8 bytes of one character, and what the decoder learns from the
/// first of them: how many bytes the character takes.
proof fn lemma_scalar_bytes(c: char)
    ensures
        encode_utf8(seq![c]) == encode_scalar(c as u32),
        encode_scalar(c as u32).len() > 0,
        valid_first_scalar(encode_scalar(c as u32)),
        length_of_first_scalar(encode_scalar(c as u32)) == encode_scalar(c as u32).len(),
{
    encode_utf8_first_scalar(seq![c]);
    assert(seq![c][0] == c);
    assert(seq![c].drop_first() =~= Seq::<char>::empty());
    assert(encode_utf8(Seq::<char>::empty()) =~= Seq::<u8>::empty());
    assert(encode_utf8(seq![c]) =~= encode_scalar(c as u32));
}

/// Deleting right after typing a character undoes the typing: the text and
/// the cursor are what they were before.
pub proof fn lemma_delete_undoes_insert(
    before: InputWidget,
    c: char,
    typed: InputWidget,
    after: InputWidget,
)
    requires
        can_insert(before),
        inserted(before, c, typed),
        deleted(typed, after),
    ensures
        can_delete(typed),
        after.input@ == before.input@,
        after.cursor == before.cursor,
        after.focused == before.focused,
        after.disabled == before.disabled,
{
    broadcast use encode_utf8_valid_utf8, encode_utf8_decode_utf8;

    let b = input_bytes(before);
    let cur = before.cursor as int;
    let e = encode_scalar(c as u32);
    let b1 = input_bytes(typed);
    lemma_char_boundary_in_range(b, cur);
    lemma_scalar_bytes(c);
    assert(b1 == b.take(cur) + e + b.skip(cur));
    assert(b1.len() == b.len() + e.len());
    assert(b1[cur] == e[0]);
    is_char_boundary_iff_is_leading_byte(b1, cur);
    assert(can_delete(typed));
    assert(b1.skip(cur)[0] == e[0]);
    assert(length_of_first_scalar(b1.skip(cur)) == e.len());
    assert(b1.take(cur) =~= b.take(cur));
    assert(b1.skip(cur + e.len()) =~= b.skip(cur));
    assert(b.take(cur) + b.skip(cur) =~= b);
    assert(input_bytes(after) == b);
    assert(after.input@ == before.input@) by {
        assert(vstd::utf8::decode_utf8(encode_utf8(after.input@)) == after.input@);
        assert(vstd::utf8::decode_utf8(encode_utf8(before.input@)) == before.input@);
    }
}

/// The line holds ASCII text only and the cursor lies within it.
pub open spec fn ascii_in_range(w: InputWidget) -> bool {
    &&& is_ascii_chars(w.input@)
    &&& w.cursor <= w.input@.len()
}

/// The UTF-8 bytes of ASCII text are its characters one for one, and every
/// position from the start to the end is a character boundary.
proof fn lemma_ascii_bytes(s: Seq<char>)
    requires
        is_ascii_chars(s),
    ensures
        encode_utf8(s).len() == s.len(),
        forall|i: int| 0 <= i < s.len() ==> #[trigger] encode_utf8(s)[i] == s[i] as u8,
        forall|i: int| 0 <= i <= s.len() ==> is_char_boundary(encode_utf8(s), i),
{
    broadcast use encode_utf8_valid_utf8;

    let b = encode_utf8(s);
    is_ascii_chars_encode_utf8(s);
    is_char_boundary_start_end_of_seq(b);
    assert forall|i: int| 0 <= i <= s.len() implies is_char_boundary(b, i) by {
        if i < s.len() {
            assert(b[i] == s[i] as u8);
            assert(is_leading_byte_width_1(b[i]));
            is_char_boundary_iff_is_leading_byte(b, i);
        }
    }
}

/// Two texts, the first of them ASCII, with the same UTF-8 bytes are equal.
proof fn lemma_ascii_bytes_determine(s: Seq<char>, t: Seq<char>)
    requires
        is_ascii_chars(s),
        encode_utf8(t) == encode_utf8(s),
    ensures
        t == s,
{
    broadcast use encode_utf8_decode_utf8;

    assert(vstd::utf8::decode_utf8(encode_utf8(t)) == t);
    assert(vstd::utf8::decode_utf8(encode_utf8(s)) == s);
}

/// On an ASCII line with the cursor within it, a character can always be
/// typed (short of a line `usize::MAX` long) and deleted: the cursor is on
/// a character boundary.
pub proof fn lemma_ascii_can_edit(w: InputWidget)
    requires
        ascii_in_range(w),
        w.input@.len() < usize::MAX,
    ensures
        can_insert(w),
        can_delete(w),
{
    lemma_ascii_bytes(w.input@);
}

/// Typing an ASCII character on an ASCII line inserts it at the cursor and
/// keeps the line ASCII with the cursor within it.
pub proof fn lemma_ascii_insert(before: InputWidget, c: char, after: InputWidget)
    requires
        ascii_in_range(before),
        (c as u32) < 0x80,
        inserted(before, c, after),
    ensures
        after.input@ == before.input@.insert(before.cursor as int, c),
        ascii_in_range(after),
{
    let s = before.input@;
    let cur = before.cursor as int;
    let t = s.insert(cur, c);
    let b = encode_utf8(s);
    lemma_ascii_bytes(s);
    assert(is_ascii_chars(t)) by {
        assert forall|i: int| 0 <= i < t.len() implies '\0' <= #[trigger] t[i] <= '\u{7f}' by {
            if i > cur {
                assert(t[i] == s[i - 1]);
            }
        }
    }
    lemma_ascii_bytes(t);
    let v = c as u32;
    assert((v & 0x7F) as u8 == v as u8) by (bit_vector)
        requires
            v < 0x80,
    ;
    assert(encode_scalar(v) =~= seq![c as u8]);
    let b1 = input_bytes(after);
    assert(b1 =~= encode_utf8(t)) by {
        assert forall|i: int| 0 <= i < b1.len() implies b1[i] == encode_utf8(t)[i] by {
            if i < cur {
                assert(t[i] == s[i]);
            } else if i == cur {
            } else {
                assert(t[i] == s[i - 1]);
            }
        }
    }
    lemma_ascii_bytes_determine(t, after.input@);
}

/// Deleting on an ASCII line removes the character before the cursor and
/// keeps the line ASCII with the cursor within it.
pub proof fn lemma_ascii_delete(before: InputWidget, after: InputWidget)
    requires
        ascii_in_range(before),
        deleted(before, after),
    ensures
        before.cursor > 0 ==> after.input@ == before.input@.remove(before.cursor - 1),
        ascii_in_range(after),
{
    if before.cursor > 0 {
        let s = before.input@;
        let at = before.cursor - 1;
        let t = s.remove(at);
        let b = encode_utf8(s);
        lemma_ascii_bytes(s);
        assert(b.skip(at)[0] == s[at] as u8);
        assert(is_leading_byte_width_1(b.skip(at)[0]));
        assert(length_of_first_scalar(b.skip(at)) == 1);
        assert(is_ascii_chars(t)) by {
            assert forall|i: int| 0 <= i < t.len() implies '\0' <= #[trigger] t[i] <= '\u{7f}' by {
                if i >= at {
                    assert(t[i] == s[i + 1]);
                }
            }
        }
        lemma_ascii_bytes(t);
        let b2 = input_bytes(after);
        assert(b2 =~= encode_utf8(t)) by {
            assert forall|i: int| 0 <= i < b2.len() implies b2[i] == encode_utf8(t)[i] by {
                if i < at {
                    assert(t[i] == s[i]);
                } else {
                    assert(t[i] == s[i + 1]);
                }
            }
        }
        lemma_ascii_bytes_determine(t, after.input@);
    }
}

/// On an ASCII line, deleting right after typing an ASCII character undoes
/// the typing, short of a line `usize::MAX` long.
pub proof fn lemma_ascii_delete_undoes_insert(
    before: InputWidget,
    c: char,
    typed: InputWidget,
    after: InputWidget,
)
    requires
        ascii_in_range(before),
        before.input@.len() < usize::MAX,
        (c as u32) < 0x80,
        inserted(before, c, typed),
        deleted(typed, after),
    ensures
        can_insert(before),
        can_delete(typed),
        after.input@ == before.input@,
        after.cursor == before.cursor,
{
    lemma_ascii_can_edit(before);
    lemma_delete_undoes_insert(before, c, typed, after);
}

impl Default for InputWidget {
    fn default() -> (w: Self)
        ensures
            w.input@ == Seq::<char>::empty(),
            w.cursor == 0,
            !w.focused,
            !w.disabled,
    {
        InputWidget::new()
    }
}

} // verus!
