//! The endpoint-entry text input: a buffer of typed characters and a cursor,
//! active while the endpoint popup is shown. Positions are character
//! positions, and the cursor always lies between 0 and the buffer's length.

use vstd::prelude::*;
use vstd::string::*;
use crate::server::Server;
use crate::util::push_char;

verus! {

/// The text buffer and cursor of the endpoint-entry popup.
pub struct InputState {
    pub input: String,
    pub cursor_position: usize,
}

impl InputState {
    /// The cursor sits between 0 and the buffer's length (in characters).
    pub open spec fn wf(self) -> bool {
        self.cursor_position <= self.input@.len()
    }

    /// An empty buffer with the cursor at the start.
    pub fn default() -> (s: InputState)
        ensures
            s.input@ == Seq::<char>::empty(),
            s.cursor_position == 0,
            s.wf(),
    {
        InputState { input: String::new(), cursor_position: 0 }
    }

    /// The nearest valid cursor position to `new_cursor_pos`.
    pub fn clamp_cursor(&self, new_cursor_pos: usize) -> (r: usize)
        ensures
            r == if new_cursor_pos <= self.input@.len() {
                new_cursor_pos as int
            } else {
                self.input@.len() as int
            },
            self.input@.len() <= usize::MAX,
    {
        let len = self.input.as_str().unicode_len();
        if new_cursor_pos < len {
            new_cursor_pos
        } else {
            len
        }
    }

    /// Move the cursor one character towards the start, stopping there; a
    /// cursor that sat beyond the end of the buffer is pulled back onto it.
    pub fn move_cursor_left(&mut self)
        ensures
            final(self).input == old(self).input,
            final(self).cursor_position == vstd::math::min(
                if old(self).cursor_position > 0 {
                    old(self).cursor_position - 1
                } else {
                    0int
                },
                old(self).input@.len() as int,
            ),
            final(self).wf(),
    {
        let cursor_moved_left = if self.cursor_position > 0 {
            self.cursor_position - 1
        } else {
            0
        };
        self.cursor_position = self.clamp_cursor(cursor_moved_left);
    }

    /// Move the cursor one character towards the end, stopping at the end.
    pub fn move_cursor_right(&mut self)
        ensures
            final(self).input == old(self).input,
            final(self).cursor_position == vstd::math::min(
                old(self).cursor_position + 1,
                old(self).input@.len() as int,
            ),
            final(self).wf(),
    {
        let cursor_moved_right = if self.cursor_position < usize::MAX {
            self.cursor_position + 1
        } else {
            self.cursor_position
        };
        self.cursor_position = self.clamp_cursor(cursor_moved_right);
    }

    /// Insert `new_char` at the cursor and step the cursor past it.
    pub fn enter_char(&mut self, new_char: char)
        requires
            old(self).wf(),
        ensures
            final(self).input@ == old(self).input@.subrange(
                0,
                old(self).cursor_position as int,
            ).push(new_char) + old(self).input@.subrange(
                old(self).cursor_position as int,
                old(self).input@.len() as int,
            ),
            final(self).cursor_position == old(self).cursor_position + 1,
            final(self).wf(),
    {
        let len = self.input.as_str().unicode_len();
        let cur = self.cursor_position;
        let prefix = String::from_str(self.input.as_str().substring_char(0, cur));
        let suffix = String::from_str(self.input.as_str().substring_char(cur, len));
        let mut s = prefix;
        push_char(&mut s, new_char);
        s.append(suffix.as_str());
        self.input = s;
        self.move_cursor_right();
    }

    /// Delete the character before the cursor, if there is one, and move the
    /// cursor back onto the gap it leaves.
    pub fn delete_char(&mut self)
        requires
            old(self).wf(),
        ensures
            old(self).cursor_position == 0 ==> *final(self) == *old(self),
            old(self).cursor_position > 0 ==> {
                &&& final(self).input@ == old(self).input@.subrange(
                    0,
                    old(self).cursor_position - 1,
                ) + old(self).input@.subrange(
                    old(self).cursor_position as int,
                    old(self).input@.len() as int,
                )
                &&& final(self).cursor_position == old(self).cursor_position - 1
            },
            final(self).wf(),
    {
        let is_not_cursor_leftmost = self.cursor_position != 0;
        if is_not_cursor_leftmost {
            let len = self.input.as_str().unicode_len();
            let current_index = self.cursor_position;
            let before = String::from_str(
                self.input.as_str().substring_char(0, current_index - 1),
            );
            let after = String::from_str(self.input.as_str().substring_char(current_index, len));
            let mut s = before;
            s.append(after.as_str());
            self.input = s;
            self.move_cursor_left();
        }
    }

    /// Put the cursor back at the start of the buffer.
    pub fn reset_cursor(&mut self)
        ensures
            final(self).input == old(self).input,
            final(self).cursor_position == 0,
            final(self).wf(),
    {
        self.cursor_position = 0;
    }

    /// Commit the buffered text: a placeholder host for the typed endpoint,
    /// with the buffer cleared and the cursor back at the start.
    pub fn add_endpoint(&mut self) -> (new_server: Server)
        ensures
            new_server@.is_placeholder(),
            new_server@.endpoint == old(self).input@,
            final(self).input@ == Seq::<char>::empty(),
            final(self).cursor_position == 0,
            final(self).wf(),
    {
        let endpoint = self.input.clone();
        self.input = String::new();
        self.reset_cursor();
        Server::new(endpoint)
    }
}

} // verus!
