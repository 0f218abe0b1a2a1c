//! The line-edit engine: a buffer, a cursor, and one transition per key
//! event.

use crate::key::KeyEvent;
use crate::text::{append_chars, string_of};
use vstd::prelude::*;
use vstd::string::StrSliceExecFns;

verus! {

/// The edited line as a mathematical value: the prompt shown before the
/// text, the text typed so far, and the position of the cursor in it.
pub struct Line {
    pub prompt: Seq<char>,
    pub buffer: Seq<char>,
    pub cursor: int,
}

/// How editing ends, as a mathematical value.
pub enum Outcome {
    Submitted(Seq<char>),
    Cancelled,
}

/// What the terminal shows for a line: the whole text of the display line,
/// and the column at which the cursor stands.
pub struct Display {
    pub text: Seq<char>,
    pub column: int,
}

impl Line {
    /// The cursor lies within the buffer or just behind its last character.
    pub open spec fn wf(self) -> bool {
        0 <= self.cursor <= self.buffer.len()
    }

    /// The line at the start of a session: nothing typed, cursor at 0.
    pub open spec fn start(prompt: Seq<char>) -> Line {
        Line { prompt, buffer: Seq::empty(), cursor: 0 }
    }

    /// The line after one key event. Keys that cannot act where the cursor
    /// stands, and keys that end the session, leave the line as it is.
    pub open spec fn after(self, key: KeyEvent) -> Line {
        match key {
            KeyEvent::Char(c) => Line {
                buffer: self.buffer.insert(self.cursor, c),
                cursor: self.cursor + 1,
                ..self
            },
            KeyEvent::Backspace => if self.cursor > 0 {
                Line {
                    buffer: self.buffer.remove(self.cursor - 1),
                    cursor: self.cursor - 1,
                    ..self
                }
            } else {
                self
            },
            KeyEvent::Delete => if self.cursor < self.buffer.len() {
                Line { buffer: self.buffer.remove(self.cursor), ..self }
            } else {
                self
            },
            KeyEvent::ArrowLeft => if self.cursor > 0 {
                Line { cursor: self.cursor - 1, ..self }
            } else {
                self
            },
            KeyEvent::ArrowRight => if self.cursor < self.buffer.len() {
                Line { cursor: self.cursor + 1, ..self }
            } else {
                self
            },
            KeyEvent::Home => Line { cursor: 0, ..self },
            KeyEvent::End => Line { cursor: self.buffer.len() as int, ..self },
            KeyEvent::Enter | KeyEvent::Interrupt | KeyEvent::Other => self,
        }
    }

    /// The outcome that a key event produces, if it ends the session.
    pub open spec fn outcome(self, key: KeyEvent) -> Option<Outcome> {
        match key {
            KeyEvent::Enter => Some(Outcome::Submitted(self.buffer)),
            KeyEvent::Interrupt => Some(Outcome::Cancelled),
            _ => None,
        }
    }

    /// The line after a sequence of key events, applied in order up to the
    /// first one that ends the session.
    pub open spec fn after_all(self, keys: Seq<KeyEvent>) -> Line
        decreases keys.len(),
    {
        if keys.len() == 0 || self.outcome(keys[0]) is Some {
            self
        } else {
            self.after(keys[0]).after_all(keys.drop_first())
        }
    }

    /// The outcome of a sequence of key events: that of the first one that
    /// ends the session.
    pub open spec fn outcome_of_all(self, keys: Seq<KeyEvent>) -> Option<Outcome>
        decreases keys.len(),
    {
        if keys.len() == 0 {
            None
        } else if self.outcome(keys[0]) is Some {
            self.outcome(keys[0])
        } else {
            self.after(keys[0]).outcome_of_all(keys.drop_first())
        }
    }

    /// What the terminal shows for this line.
    pub open spec fn display(self) -> Display {
        Display { text: self.prompt + self.buffer, column: self.prompt.len() + self.cursor }
    }
}

/// The outcome of a session.
#[derive(Clone, Debug, PartialEq, Eq)]
pub enum EditResult {
    /// The line was submitted with this text.
    Submitted(String),
    /// The user gave up; nothing of the buffer is handed on.
    Cancelled,
}

impl View for EditResult {
    type V = Outcome;

    open spec fn view(&self) -> Outcome {
        match self {
            EditResult::Submitted(text) => Outcome::Submitted(text@),
            EditResult::Cancelled => Outcome::Cancelled,
        }
    }
}

/// The value of an optional result.
pub open spec fn outcome_view(result: Option<EditResult>) -> Option<Outcome> {
    match result {
        Some(r) => Some(r@),
        None => None,
    }
}

/// What to write to the terminal after a transition: the text of the whole
/// display line, and the column to leave the cursor at.
#[derive(Clone, Debug, PartialEq, Eq)]
pub struct RedrawInstruction {
    pub text: String,
    pub column: usize,
}

impl View for RedrawInstruction {
    type V = Display;

    open spec fn view(&self) -> Display {
        Display { text: self.text@, column: self.column as int }
    }
}

/// The state of the editor. The cursor never leaves the buffer.
#[derive(Debug, PartialEq, Eq)]
pub struct EditorState {
    prompt: String,
    buffer: Vec<char>,
    cursor: usize,
}

impl View for EditorState {
    type V = Line;

    closed spec fn view(&self) -> Line {
        Line { prompt: self.prompt@, buffer: self.buffer@, cursor: self.cursor as int }
    }
}

impl Clone for EditorState {
    fn clone(&self) -> (copy: EditorState)
        ensures
            copy@ == self@,
    {
        proof {
            use_type_invariant(self);
        }
        let buffer = self.buffer.clone();
        assert(buffer@ == self.buffer@);
        EditorState { prompt: self.prompt.clone(), buffer, cursor: self.cursor }
    }
}

impl EditorState {
    #[verifier::type_invariant]
    spec fn cursor_in_buffer(self) -> bool {
        self.cursor <= self.buffer@.len()
    }

    /// The editor at the start of a session.
    pub fn new(prompt: &str) -> (state: EditorState)
        ensures
            state@ == Line::start(prompt@),
    {
        EditorState { prompt: prompt.to_owned(), buffer: Vec::new(), cursor: 0 }
    }

    /// The transition function: the state after `key`, and the outcome if
    /// `key` ends the session.
    pub fn apply(self, key: KeyEvent) -> (next: (EditorState, Option<EditResult>))
        ensures
            self@.wf(),
            next.0@ == self@.after(key),
            next.0@.wf(),
            outcome_view(next.1) == self@.outcome(key),
    {
        proof {
            use_type_invariant(&self);
        }
        let EditorState { prompt, mut buffer, cursor } = self;
        match key {
            KeyEvent::Char(c) => {
                buffer.insert(cursor, c);
                assert(cursor < buffer.len());
                (EditorState { prompt, buffer, cursor: cursor + 1 }, None)
            },
            KeyEvent::Backspace => {
                if cursor > 0 {
                    buffer.remove(cursor - 1);
                    (EditorState { prompt, buffer, cursor: cursor - 1 }, None)
                } else {
                    (EditorState { prompt, buffer, cursor }, None)
                }
            },
            KeyEvent::Delete => {
                if cursor < buffer.len() {
                    buffer.remove(cursor);
                }
                (EditorState { prompt, buffer, cursor }, None)
            },
            KeyEvent::ArrowLeft => {
                let cursor: usize = if cursor > 0 { cursor - 1 } else { cursor };
                (EditorState { prompt, buffer, cursor }, None)
            },
            KeyEvent::ArrowRight => {
                let cursor: usize = if cursor < buffer.len() { cursor + 1 } else { cursor };
                (EditorState { prompt, buffer, cursor }, None)
            },
            KeyEvent::Home => (EditorState { prompt, buffer, cursor: 0 }, None),
            KeyEvent::End => {
                let cursor: usize = buffer.len();
                (EditorState { prompt, buffer, cursor }, None)
            },
            KeyEvent::Enter => {
                let text = string_of(&buffer);
                (EditorState { prompt, buffer, cursor }, Some(EditResult::Submitted(text)))
            },
            KeyEvent::Interrupt => {
                (EditorState { prompt, buffer, cursor }, Some(EditResult::Cancelled))
            },
            KeyEvent::Other => (EditorState { prompt, buffer, cursor }, None),
        }
    }

    /// What the terminal has to show for the current state.
    pub fn redraw(&self) -> (instruction: RedrawInstruction)
        ensures
            instruction@ == self@.display(),
    {
        proof {
            use_type_invariant(self);
        }
        let mut text = self.prompt.clone();
        append_chars(&mut text, &self.buffer);
        let width: usize = text.as_str().unicode_len();
        let column: usize = width - (self.buffer.len() - self.cursor);
        RedrawInstruction { text, column }
    }

    /// The prompt of the session.
    pub fn prompt(&self) -> (prompt: &str)
        ensures
            prompt@ == self@.prompt,
    {
        self.prompt.as_str()
    }

    /// The text typed so far.
    pub fn buffer(&self) -> (text: String)
        ensures
            text@ == self@.buffer,
    {
        string_of(&self.buffer)
    }

    /// The position of the cursor in the buffer.
    pub fn cursor(&self) -> (cursor: usize)
        ensures
            cursor == self@.cursor,
            cursor <= self@.buffer.len(),
    {
        proof {
            use_type_invariant(self);
        }
        self.cursor
    }
}

} // verus!
