//! A single-line text editor for terminals in raw mode.
//!
//! The crate holds the decisions of an interactive prompt and none of its
//! input or output:
//!
//! * [`key`] turns what a terminal reports into the editor's key events;
//! * [`editor`] is the line-edit engine, a transition function on a buffer
//!   and a cursor;
//! * [`session`] is the protocol that brackets editing between entering raw
//!   mode and restoring cooked mode, as a machine that is told how the last
//!   request went and names the next one;
//! * [`script`] runs sessions and readers against a terminal that replays
//!   recorded replies;
//! * [`reader`] reads a line, once or until it is not empty;
//! * [`laws`] states what holds of every line, session and reader;
//! * [`repo`] holds what is done with the lines that were read.
//!
//! A driver performs the requests on a real terminal and feeds the replies
//! back; everything it is told to do is decided here.

pub mod editor;
pub mod key;
pub mod laws;
pub mod reader;
pub mod repo;
pub mod script;
pub mod session;
pub mod text;
