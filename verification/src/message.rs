use crate::text::join;
use vstd::prelude::*;

verus! {

/// Where a text is shown.
#[derive(Debug, Clone, Copy, PartialEq, Eq, Structural)]
pub enum Stream {
    /// Standard output: what the user asked to see.
    Output,
    /// Standard error: what the shell itself complains about.
    Error,
}

/// A text for the user. It is written as it stands: nothing is added to
/// it, no end of line either.
#[derive(Debug, PartialEq, Eq)]
pub struct Message {
    pub stream: Stream,
    pub text: String,
}

/// A message, read as plain text.
pub struct MessageView {
    pub stream: Stream,
    pub text: Seq<char>,
}

impl View for Message {
    type V = MessageView;

    open spec fn view(&self) -> MessageView {
        MessageView { stream: self.stream, text: self.text@ }
    }
}

/// `text` as a line of its own on standard output.
pub open spec fn notice(text: Seq<char>) -> MessageView {
    MessageView { stream: Stream::Output, text: text + "\n"@ }
}

/// `text` as a line of its own on standard error.
pub open spec fn complaint(text: Seq<char>) -> MessageView {
    MessageView { stream: Stream::Error, text: text + "\n"@ }
}

/// What an optional message reads as, where there is one.
pub open spec fn said(message: Option<Message>) -> Option<MessageView> {
    match message {
        Some(m) => Some(m@),
        None => None,
    }
}

impl Message {
    /// `text` as a line of its own on standard output.
    pub fn notice(text: &str) -> (message: Message)
        ensures
            message@ == notice(text@),
    {
        Message { stream: Stream::Output, text: join(text, "\n") }
    }

    /// `text` as a line of its own on standard error.
    pub fn complaint(text: &str) -> (message: Message)
        ensures
            message@ == complaint(text@),
    {
        Message { stream: Stream::Error, text: join(text, "\n") }
    }
}

} // verus!
