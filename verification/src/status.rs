//! Status reporting: the single display slot that always shows the most
//! recently received message, and the buffer of log lines shown to the user.

use vstd::prelude::*;

verus! {

/// A human-readable outcome for the footer, optionally tagged as an error.
pub struct StatusMessage {
    pub text: String,
    pub is_error: bool,
}

impl StatusMessage {
    /// A plain message with the given text.
    pub fn info(text: &str) -> (m: StatusMessage)
        ensures
            m.text@ == text@,
            !m.is_error,
    {
        StatusMessage { text: text.to_owned(), is_error: false }
    }

    /// An error message with the given text.
    pub fn error(text: &str) -> (m: StatusMessage)
        ensures
            m.text@ == text@,
            m.is_error,
    {
        StatusMessage { text: text.to_owned(), is_error: true }
    }
}

/// The display slot for status messages: it holds at most one message, and a
/// newly received message overwrites the previous one. No history is kept.
pub struct StatusBoard {
    pub latest: Option<StatusMessage>,
}

impl StatusBoard {
    /// An empty board, showing nothing.
    pub fn new() -> (b: StatusBoard)
        ensures
            b.latest is None,
    {
        StatusBoard { latest: None }
    }

    /// Take the outcome of one try at receiving from the status channel:
    /// a message overwrites the display, no message leaves it unchanged.
    pub fn poll(&mut self, incoming: Option<StatusMessage>)
        ensures
            old(self).latest is Some ==> final(self).latest is Some,
            incoming matches Some(m) ==> final(self).latest == Some(m),
            incoming is None ==> *final(self) == *old(self),
    {
        match incoming {
            Some(m) => {
                self.latest = Some(m);
            },
            None => {},
        }
    }
}

/// The ordered buffer of log lines shown to the user. Lines are only ever
/// appended, in the order they are received, so the buffer preserves the
/// delivery order of the tailer.
pub struct LogBuffer {
    pub lines: Vec<String>,
}

impl LogBuffer {
    /// An empty buffer.
    pub fn new() -> (b: LogBuffer)
        ensures
            b.lines@ == Seq::<String>::empty(),
    {
        LogBuffer { lines: Vec::new() }
    }

    /// Append one received line; every earlier line stays in place.
    pub fn receive(&mut self, line: String)
        ensures
            final(self).lines@ == old(self).lines@.push(line),
    {
        self.lines.push(line);
    }
}

} // verus!
