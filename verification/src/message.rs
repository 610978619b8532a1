//! A message whose variants carry payloads of different shapes.

use vstd::prelude::*;

verus! {

/// A message: exactly one of four variants, each with a payload of its
/// own shape.
pub enum Message {
    /// No payload.
    Quit,
    /// A position.
    Move { x: i32, y: i32 },
    /// A piece of text.
    Write(String),
    /// Three colour components.
    ChangeColor(i32, i32, i32),
}

impl Message {
    /// The text that handling a message reports.
    pub open spec fn call_text() -> Seq<char> {
        "inside 'call' function for Message enum"@
    }

    /// Handles the message and returns the line to report. The line is
    /// the same for every variant and every payload: one method serves
    /// the whole type.
    pub fn call(&self) -> (line: &'static str)
        ensures
            line@ == Self::call_text(),
    {
        "inside 'call' function for Message enum"
    }
}

} // verus!
