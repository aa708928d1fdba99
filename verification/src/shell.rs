use crate::cd::{cd_plan, CdError, CdPlan, CdPlanView};
use crate::command_line::{parse, CommandLine, ParsedCommand};
use crate::message::{complaint, Message, MessageView, Stream};
use crate::session::{Session, SessionView};
use crate::text::{join, same_text};
use vstd::prelude::*;

verus! {

/// What the shell does for one line.
#[derive(Debug, PartialEq, Eq)]
pub enum Action {
    /// Nothing: the line holds no command.
    Idle,
    /// Leave the loop; the shell ends with success.
    Exit,
    /// Change the working directory as planned.
    ChangeDirectory(CdPlan),
    /// Tell the user why `cd` does not change the directory.
    Refuse(CdError),
    /// Show the history file.
    ShowHistory,
    /// Run a program, wait for it and show what it printed.
    Launch { program: String, arguments: Vec<String> },
}

/// An action, read as plain text.
pub enum ActionView {
    Idle,
    Exit,
    ChangeDirectory(CdPlanView),
    Refuse(CdError),
    ShowHistory,
    Launch { program: Seq<char>, arguments: Seq<Seq<char>> },
}

impl View for Action {
    type V = ActionView;

    open spec fn view(&self) -> ActionView {
        match self {
            Action::Idle => ActionView::Idle,
            Action::Exit => ActionView::Exit,
            Action::ChangeDirectory(plan) => ActionView::ChangeDirectory(plan@),
            Action::Refuse(error) => ActionView::Refuse(*error),
            Action::ShowHistory => ActionView::ShowHistory,
            Action::Launch { program, arguments } => ActionView::Launch {
                program: program@,
                arguments: arguments.deep_view(),
            },
        }
    }
}

/// What the shell does for `line` in `session`.
///
/// The command's name alone decides: `exit`, `cd` and `history` are the
/// shell's own, the empty command asks for nothing, and every other name
/// is a program to run with the arguments of the line. The arguments of
/// `exit` and `history` are not looked at.
pub open spec fn action_for(session: SessionView, line: ParsedCommand) -> ActionView {
    if line.command == "exit"@ {
        ActionView::Exit
    } else if line.command == "cd"@ {
        match cd_plan(session, line.arguments) {
            Ok(plan) => ActionView::ChangeDirectory(plan),
            Err(error) => ActionView::Refuse(error),
        }
    } else if line.command == "history"@ {
        ActionView::ShowHistory
    } else if line.command.len() == 0 {
        ActionView::Idle
    } else {
        ActionView::Launch { program: line.command, arguments: line.arguments }
    }
}

impl CommandLine {
    /// Chooses what to do for this line. The session is only read.
    pub fn dispatch(&self, session: &Session) -> (action: Action)
        ensures
            action@ == action_for(session@, self@),
    {
        let command = self.get_command();
        if same_text(command, "exit") {
            Action::Exit
        } else if same_text(command, "cd") {
            match self.cd_command(session) {
                Ok(plan) => Action::ChangeDirectory(plan),
                Err(error) => Action::Refuse(error),
            }
        } else if same_text(command, "history") {
            Action::ShowHistory
        } else if command.is_empty() {
            Action::Idle
        } else {
            Action::Launch { program: command.to_owned(), arguments: self.get_args() }
        }
    }
}

/// Parses the raw input `line` and chooses what to do for it.
pub fn interpret(session: &Session, line: String) -> (action: Action)
    ensures
        action@ == action_for(session@, parse(line@)),
{
    CommandLine::new(line).dispatch(session)
}

/// The prompt in the working directory `cwd`.
pub open spec fn prompt_in(cwd: Seq<char>) -> MessageView {
    MessageView { stream: Stream::Output, text: cwd + "$ "@ }
}

/// The prompt shown before a line is read: the working directory and a
/// dollar sign, on standard output, with no end of line.
pub fn prompt(cwd: &str) -> (message: Message)
    ensures
        message@ == prompt_in(cwd@),
{
    Message { stream: Stream::Output, text: join(cwd, "$ ") }
}

/// The complaint when the program `program` cannot be started.
pub open spec fn command_not_found(program: Seq<char>) -> Seq<char> {
    "microbash: command not found: "@ + program
}

/// What is shown once the program `program` has been run. `output` is
/// what it wrote to its standard output, which is passed on as it
/// stands; it is none where the program could not be started.
pub fn launched(program: &str, output: Option<String>) -> (message: Message)
    ensures
        message@ == match output {
            Some(text) => MessageView { stream: Stream::Output, text: text@ },
            None => complaint(command_not_found(program@)),
        },
{
    match output {
        Some(text) => Message { stream: Stream::Output, text },
        None => {
            let text = join("microbash: command not found: ", program);
            Message::complaint(text.as_str())
        },
    }
}

} // verus!
