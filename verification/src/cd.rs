use crate::command_line::CommandLine;
use crate::message::{complaint, notice, said, Message};
use crate::session::{Session, SessionView};
use crate::text::{join, same_text, text_of};
use vstd::prelude::*;

verus! {

/// Why `cd` does not even try to change the directory.
#[derive(Debug, Clone, Copy, PartialEq, Eq, Structural)]
pub enum CdError {
    /// More than one argument was given.
    TooManyArguments,
    /// The home directory was asked for and is not known.
    HomeUnknown,
    /// The previous directory was asked for and none was recorded yet.
    NoPreviousDirectory,
}

impl CdError {
    /// The complaint for this refusal.
    pub open spec fn text(self) -> Seq<char> {
        match self {
            CdError::TooManyArguments => "cd: too many arguments"@,
            CdError::HomeUnknown => "cd: HOME not set"@,
            CdError::NoPreviousDirectory => "cd: OLDPWD not set"@,
        }
    }

    /// The complaint to show.
    pub fn report(&self) -> (message: Message)
        ensures
            message@ == complaint(self.text()),
    {
        match self {
            CdError::TooManyArguments => Message::complaint("cd: too many arguments"),
            CdError::HomeUnknown => Message::complaint("cd: HOME not set"),
            CdError::NoPreviousDirectory => Message::complaint("cd: OLDPWD not set"),
        }
    }
}

/// The change of directory that a `cd` asks for.
#[derive(Debug, PartialEq, Eq)]
pub struct CdPlan {
    /// The directory to change into, absolute or relative.
    pub target: String,
    /// Whether the target is shown to the user before the change.
    pub announce: bool,
}

/// A plan, read as plain text.
pub struct CdPlanView {
    pub target: Seq<char>,
    pub announce: bool,
}

impl View for CdPlan {
    type V = CdPlanView;

    open spec fn view(&self) -> CdPlanView {
        CdPlanView { target: self.target@, announce: self.announce }
    }
}

impl CdPlan {
    /// What is shown before the change is tried: for a plan that
    /// announces, the target and an empty line after it.
    pub fn announcement(&self) -> (message: Option<Message>)
        ensures
            said(message) == if self.announce {
                Some(notice(self.target@ + "\n"@))
            } else {
                None
            },
    {
        if self.announce {
            let line = join(self.target.as_str(), "\n");
            Some(Message::notice(line.as_str()))
        } else {
            None
        }
    }
}

/// The complaint when `target` cannot be entered.
pub open spec fn no_such_directory(target: Seq<char>) -> Seq<char> {
    "cd: No such file or directory: "@ + target
}

impl SessionView {
    /// The session after a change of directory was tried: `entered` is
    /// the working directory that it led to, none where it failed.
    pub open spec fn after_cd(self, entered: Option<Seq<char>>) -> SessionView {
        match entered {
            Some(directory) => self.entered(directory),
            None => self,
        }
    }
}

impl Session {
    /// Takes in how the change of directory that `plan` asked for went.
    /// `entered` is the working directory after the change, none where
    /// the target could not be entered. A change that worked is recorded
    /// and nothing is said; one that failed leaves the session as it was
    /// and is answered with a complaint that names the target.
    pub fn cd_finished(&mut self, plan: &CdPlan, entered: Option<String>) -> (message: Option<
        Message,
    >)
        ensures
            final(self)@ == old(self)@.after_cd(text_of(entered)),
            said(message) == if entered is Some {
                None
            } else {
                Some(complaint(no_such_directory(plan.target@)))
            },
    {
        match entered {
            Some(directory) => {
                self.enter(directory);
                None
            },
            None => {
                let text = join("cd: No such file or directory: ", plan.target.as_str());
                Some(Message::complaint(text.as_str()))
            },
        }
    }
}

/// Where `cd` goes when it is sent home.
pub open spec fn cd_home(session: SessionView) -> Result<CdPlanView, CdError> {
    match session.home {
        Some(home) => Ok(CdPlanView { target: home, announce: false }),
        None => Err(CdError::HomeUnknown),
    }
}

/// What `cd` with the arguments `args` asks for in `session`.
///
/// Without an argument, or with `~`, it goes home. With `-` it goes back
/// to the previous directory and announces it. Any other single argument
/// is the directory itself. More than one argument is refused.
pub open spec fn cd_plan(session: SessionView, args: Seq<Seq<char>>) -> Result<
    CdPlanView,
    CdError,
> {
    if args.len() > 1 {
        Err(CdError::TooManyArguments)
    } else if args.len() == 0 || args[0] == "~"@ {
        cd_home(session)
    } else if args[0] == "-"@ {
        match session.previous {
            Some(previous) => Ok(CdPlanView { target: previous, announce: true }),
            None => Err(CdError::NoPreviousDirectory),
        }
    } else {
        Ok(CdPlanView { target: args[0], announce: false })
    }
}

/// A plan or a refusal, read as plain text.
pub open spec fn outcome_of(outcome: Result<CdPlan, CdError>) -> Result<CdPlanView, CdError> {
    match outcome {
        Ok(plan) => Ok(plan@),
        Err(error) => Err(error),
    }
}

fn go_home(session: &Session) -> (outcome: Result<CdPlan, CdError>)
    ensures
        outcome_of(outcome) == cd_home(session@),
{
    match &session.home {
        Some(home) => Ok(CdPlan { target: home.clone(), announce: false }),
        None => Err(CdError::HomeUnknown),
    }
}

impl CommandLine {
    /// Decides what the built-in `cd` does with the arguments of this
    /// line. The session is only read: it changes when the caller has
    /// changed the directory and calls [`Session::enter`].
    pub fn cd_command(&self, session: &Session) -> (outcome: Result<CdPlan, CdError>)
        ensures
            outcome_of(outcome) == cd_plan(session@, self@.arguments),
    {
        let args = self.args();
        if args.len() > 1 {
            return Err(CdError::TooManyArguments);
        }
        if args.len() == 0 {
            return go_home(session);
        }
        let arg = &args[0];
        if same_text(arg.as_str(), "~") {
            go_home(session)
        } else if same_text(arg.as_str(), "-") {
            match &session.previous {
                Some(previous) => Ok(CdPlan { target: previous.clone(), announce: true }),
                None => Err(CdError::NoPreviousDirectory),
            }
        } else {
            Ok(CdPlan { target: arg.clone(), announce: false })
        }
    }
}

} // verus!
