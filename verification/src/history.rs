use crate::message::{complaint, notice, Message, MessageView};
use crate::session::Session;
use crate::text::join;
use vstd::prelude::*;

verus! {

/// What goes wrong with the history file.
#[derive(Debug, Clone, Copy, PartialEq, Eq, Structural)]
pub enum HistoryFailure {
    /// The file cannot be opened, or there is no saying where it lies.
    Open,
    /// The file was opened, and the line cannot be written to it.
    Write,
    /// The file was opened, and its contents cannot be read.
    Read,
}

impl HistoryFailure {
    /// The warning for this failure.
    pub open spec fn text(self) -> Seq<char> {
        match self {
            HistoryFailure::Open => "Couldn't open file"@,
            HistoryFailure::Write => "Couldn't write to file"@,
            HistoryFailure::Read => "Couldn't read file"@,
        }
    }

    /// The warning to show. It is a warning and no more: the shell goes
    /// on with the line it has read.
    pub fn report(&self) -> (message: Message)
        ensures
            message@ == complaint(self.text()),
    {
        match self {
            HistoryFailure::Open => Message::complaint("Couldn't open file"),
            HistoryFailure::Write => Message::complaint("Couldn't write to file"),
            HistoryFailure::Read => Message::complaint("Couldn't read file"),
        }
    }
}

/// Where the history file lies for the home directory `home`.
pub open spec fn history_file(home: Seq<char>) -> Seq<char> {
    home + "/.microbash_history"@
}

/// What `history` shows for a history file that holds `contents`: a
/// heading, then the whole of the file.
pub open spec fn history_listing(contents: Seq<char>) -> MessageView {
    notice("History:\n"@ + contents)
}

impl Session {
    /// The path of the history file. Every line that is read is appended
    /// to that file as it stands, before anything else is done with it.
    /// Without a home directory the file cannot be opened.
    pub fn history_path(&self) -> (path: Result<String, HistoryFailure>)
        ensures
            match self@.home {
                Some(home) => path matches Ok(p) && p@ == history_file(home),
                None => path == Err::<String, HistoryFailure>(HistoryFailure::Open),
            },
    {
        match &self.home {
            Some(home) => Ok(join(home.as_str(), "/.microbash_history")),
            None => Err(HistoryFailure::Open),
        }
    }
}

/// What `history` shows once the history file has been read, or could
/// not be.
pub fn history_shown(read: Result<String, HistoryFailure>) -> (message: Message)
    ensures
        message@ == match read {
            Ok(contents) => history_listing(contents@),
            Err(failure) => complaint(failure.text()),
        },
{
    match read {
        Ok(contents) => {
            let listing = join("History:\n", contents.as_str());
            Message::notice(listing.as_str())
        },
        Err(failure) => failure.report(),
    }
}

} // verus!
