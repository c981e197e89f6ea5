//! The input line: a text buffer with a cursor, the mode it is in, and the
//! last error or message to show.
use vstd::prelude::*;

use crate::text::{chars_of, string_of};

verus! {

#[derive(Debug, Clone, Copy, PartialEq, Eq, Structural)]
pub enum InputMode {
    /// Keys are shortcuts.
    Normal,
    /// Typing a move or a command.
    Command,
    /// Typing a FEN.
    Fen,
    /// Typing a game, line by line.
    Pgn,
}

#[derive(Debug, Clone)]
pub struct InputState {
    pub buffer: String,
    /// Position of the cursor, in characters from the start of the buffer.
    pub cursor: usize,
    pub mode: InputMode,
    pub error: Option<String>,
    pub message: Option<String>,
    /// Lines of a game typed so far.
    pub pgn_buffer: Vec<String>,
}

impl Default for InputState {
    fn default() -> (r: InputState)
        ensures
            r@.len() == 0,
            r.cursor == 0,
            r.mode == InputMode::Normal,
            r.error is None,
            r.message is None,
            r.pgn_buffer@.len() == 0,
    {
        InputState {
            buffer: String::new(),
            cursor: 0,
            mode: InputMode::Normal,
            error: None,
            message: None,
            pgn_buffer: Vec::new(),
        }
    }
}

impl View for InputState {
    type V = Seq<char>;

    /// The text of the buffer.
    open spec fn view(&self) -> Seq<char> {
        self.buffer@
    }
}

impl InputState {
    /// The cursor stands within the text or just after it.
    pub open spec fn wf(&self) -> bool {
        self.cursor <= self@.len()
    }

    /// Inserts `c` at the cursor and moves the cursor past it.
    pub fn insert(&mut self, c: char)
        requires
            old(self).wf(),
        ensures
            final(self)@ == old(self)@.insert(old(self).cursor as int, c),
            final(self).cursor == old(self).cursor + 1,
            final(self).error is None,
            final(self).message is None,
            final(self).mode == old(self).mode,
            final(self).pgn_buffer == old(self).pgn_buffer,
            final(self).wf(),
    {
        let mut v = chars_of(self.buffer.as_str());
        v.insert(self.cursor, c);
        let _n = v.len();
        self.buffer = string_of(&v);
        self.cursor = self.cursor + 1;
        self.clear_messages();
    }

    /// Deletes the character before the cursor, if any.
    pub fn backspace(&mut self)
        requires
            old(self).wf(),
        ensures
            old(self).cursor > 0 ==> final(self)@ == old(self)@.remove(old(self).cursor - 1)
                && final(self).cursor == old(self).cursor - 1,
            old(self).cursor == 0 ==> final(self)@ == old(self)@ && final(self).cursor == 0,
            final(self).error is None,
            final(self).message is None,
            final(self).mode == old(self).mode,
            final(self).pgn_buffer == old(self).pgn_buffer,
            final(self).wf(),
    {
        if self.cursor > 0 {
            self.cursor = self.cursor - 1;
            let mut v = chars_of(self.buffer.as_str());
            v.remove(self.cursor);
            self.buffer = string_of(&v);
        }
        self.clear_messages();
    }

    /// Deletes the character at the cursor, if any.
    pub fn delete(&mut self)
        ensures
            old(self).cursor < old(self)@.len() ==> final(self)@ == old(self)@.remove(
                old(self).cursor as int,
            ),
            old(self).cursor >= old(self)@.len() ==> final(self)@ == old(self)@,
            final(self).cursor == old(self).cursor,
            final(self).error is None,
            final(self).message is None,
            final(self).mode == old(self).mode,
            final(self).pgn_buffer == old(self).pgn_buffer,
            old(self).wf() ==> final(self).wf(),
    {
        let mut v = chars_of(self.buffer.as_str());
        if self.cursor < v.len() {
            v.remove(self.cursor);
            self.buffer = string_of(&v);
        }
        self.clear_messages();
    }

    pub fn move_left(&mut self)
        ensures
            final(self).cursor == if old(self).cursor > 0 {
                old(self).cursor - 1
            } else {
                0
            },
            final(self)@ == old(self)@,
            final(self).mode == old(self).mode,
            final(self).error == old(self).error,
            final(self).message == old(self).message,
            final(self).pgn_buffer == old(self).pgn_buffer,
            old(self).wf() ==> final(self).wf(),
    {
        self.cursor = self.cursor.saturating_sub(1);
    }

    /// One character right, stopping at the end of the text.
    pub fn move_right(&mut self)
        ensures
            final(self).cursor == if old(self).cursor < old(self)@.len() {
                old(self).cursor + 1
            } else {
                old(self)@.len() as int
            },
            final(self)@ == old(self)@,
            final(self).mode == old(self).mode,
            final(self).error == old(self).error,
            final(self).message == old(self).message,
            final(self).pgn_buffer == old(self).pgn_buffer,
            final(self).wf(),
    {
        let n = chars_of(self.buffer.as_str()).len();
        if self.cursor < n {
            self.cursor = self.cursor + 1;
        } else {
            self.cursor = n;
        }
    }

    pub fn move_start(&mut self)
        ensures
            final(self).cursor == 0,
            final(self)@ == old(self)@,
            final(self).mode == old(self).mode,
            final(self).error == old(self).error,
            final(self).message == old(self).message,
            final(self).pgn_buffer == old(self).pgn_buffer,
            final(self).wf(),
    {
        self.cursor = 0;
    }

    pub fn move_end(&mut self)
        ensures
            final(self).cursor == old(self)@.len(),
            final(self)@ == old(self)@,
            final(self).mode == old(self).mode,
            final(self).error == old(self).error,
            final(self).message == old(self).message,
            final(self).pgn_buffer == old(self).pgn_buffer,
            final(self).wf(),
    {
        self.cursor = chars_of(self.buffer.as_str()).len();
    }

    /// Empties the buffer and the messages.
    pub fn clear(&mut self)
        ensures
            final(self)@.len() == 0,
            final(self).cursor == 0,
            final(self).error is None,
            final(self).message is None,
            final(self).mode == old(self).mode,
            final(self).pgn_buffer == old(self).pgn_buffer,
            final(self).wf(),
    {
        self.buffer = String::new();
        self.cursor = 0;
        self.clear_messages();
    }

    /// Hands out the buffer's text and leaves it empty.
    pub fn take(&mut self) -> (r: String)
        ensures
            r@ == old(self)@,
            final(self)@.len() == 0,
            final(self).cursor == 0,
            final(self).mode == old(self).mode,
            final(self).error == old(self).error,
            final(self).message == old(self).message,
            final(self).pgn_buffer == old(self).pgn_buffer,
            final(self).wf(),
    {
        self.cursor = 0;
        let mut out = String::new();
        std::mem::swap(&mut out, &mut self.buffer);
        out
    }

    /// Shows an error in place of any message.
    pub fn set_error(&mut self, msg: &str)
        ensures
            final(self).error is Some && final(self).error->0@ == msg@,
            final(self).message is None,
            final(self)@ == old(self)@,
            final(self).cursor == old(self).cursor,
            final(self).mode == old(self).mode,
            final(self).pgn_buffer == old(self).pgn_buffer,
    {
        self.error = Some(String::from_str(msg));
        self.message = None;
    }

    /// Shows a message in place of any error.
    pub fn set_message(&mut self, msg: &str)
        ensures
            final(self).message is Some && final(self).message->0@ == msg@,
            final(self).error is None,
            final(self)@ == old(self)@,
            final(self).cursor == old(self).cursor,
            final(self).mode == old(self).mode,
            final(self).pgn_buffer == old(self).pgn_buffer,
    {
        self.message = Some(String::from_str(msg));
        self.error = None;
    }

    pub fn clear_messages(&mut self)
        ensures
            final(self).error is None,
            final(self).message is None,
            final(self).buffer == old(self).buffer,
            final(self).cursor == old(self).cursor,
            final(self).mode == old(self).mode,
            final(self).pgn_buffer == old(self).pgn_buffer,
    {
        self.error = None;
        self.message = None;
    }

    pub fn enter_command_mode(&mut self)
        ensures
            final(self).mode == InputMode::Command,
            final(self)@.len() == 0,
            final(self).cursor == 0,
            final(self).error is None,
            final(self).message is None,
            final(self).pgn_buffer == old(self).pgn_buffer,
    {
        self.mode = InputMode::Command;
        self.clear();
    }

    /// FEN mode starts with `:fen ` typed, the cursor after it.
    pub fn enter_fen_mode(&mut self)
        ensures
            final(self).mode == InputMode::Fen,
            final(self)@ == ":fen "@,
            final(self).cursor == 5,
            final(self).error is None,
            final(self).message is None,
            final(self).pgn_buffer == old(self).pgn_buffer,
            final(self).wf(),
    {
        self.mode = InputMode::Fen;
        self.clear();
        self.buffer = String::from_str(":fen ");
        self.cursor = chars_of(self.buffer.as_str()).len();
        proof {
            reveal_strlit(":fen ");
        }
    }

    pub fn enter_pgn_mode(&mut self)
        ensures
            final(self).mode == InputMode::Pgn,
            final(self)@.len() == 0,
            final(self).cursor == 0,
            final(self).error is None,
            final(self).message is None,
            final(self).pgn_buffer@.len() == 0,
    {
        self.mode = InputMode::Pgn;
        self.clear();
        self.pgn_buffer.clear();
    }

    /// Back to shortcuts, with nothing typed.
    pub fn exit_mode(&mut self)
        ensures
            final(self).mode == InputMode::Normal,
            final(self)@.len() == 0,
            final(self).cursor == 0,
            final(self).error is None,
            final(self).message is None,
            final(self).pgn_buffer@.len() == 0,
    {
        self.mode = InputMode::Normal;
        self.clear();
        self.pgn_buffer.clear();
    }

    /// Whether text is being typed.
    pub fn is_input_mode(&self) -> (r: bool)
        ensures
            r == (self.mode != InputMode::Normal),
    {
        self.mode != InputMode::Normal
    }
}

} // verus!
