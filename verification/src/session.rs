use crate::text::text_of;
use vstd::prelude::*;

verus! {

/// What the shell remembers between two lines.
#[derive(Debug, PartialEq, Eq)]
pub struct Session {
    /// The working directory, as last reported.
    pub cwd: String,
    /// The working directory that the last successful `cd` left, if any.
    pub previous: Option<String>,
    /// The user's home directory, if it is known.
    pub home: Option<String>,
}

/// A session, read as plain texts.
pub struct SessionView {
    pub cwd: Seq<char>,
    pub previous: Option<Seq<char>>,
    pub home: Option<Seq<char>>,
}

impl SessionView {
    /// The session after the working directory has changed to `directory`:
    /// the directory that was left becomes the previous one.
    pub open spec fn entered(self, directory: Seq<char>) -> SessionView {
        SessionView { cwd: directory, previous: Some(self.cwd), home: self.home }
    }
}

impl View for Session {
    type V = SessionView;

    open spec fn view(&self) -> SessionView {
        SessionView {
            cwd: self.cwd@,
            previous: text_of(self.previous),
            home: text_of(self.home),
        }
    }
}

impl Session {
    /// A session that starts in `cwd`.
    pub fn new(cwd: String, previous: Option<String>, home: Option<String>) -> (session: Self)
        ensures
            session.cwd == cwd,
            session.previous == previous,
            session.home == home,
    {
        Session { cwd, previous, home }
    }

    /// Records that the working directory has changed to `directory`.
    pub fn enter(&mut self, directory: String)
        ensures
            final(self)@ == old(self)@.entered(directory@),
    {
        let mut left = directory;
        core::mem::swap(&mut self.cwd, &mut left);
        self.previous = Some(left);
    }
}

} // verus!
