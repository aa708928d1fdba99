use crate::cd::{cd_plan, CdError, CdPlanView};
use crate::command_line::parse;
use crate::session::SessionView;
use crate::shell::action_for;
use crate::tokens::{lemma_tokens_none_iff_blank, lemma_tokens_solid, tokens};
use crate::whitespace::blank;
use vstd::prelude::*;

verus! {

/// `cd` is refused for its arguments exactly when there are two or more
/// of them, and then nothing is tried. With fewer it asks for a change of
/// directory whenever the directory it names is known.
pub proof fn lemma_cd_by_argument_count(session: SessionView, args: Seq<Seq<char>>)
    ensures
        args.len() >= 2 <==> cd_plan(session, args) == Err::<CdPlanView, CdError>(
            CdError::TooManyArguments,
        ),
        args.len() <= 1 && session.home is Some && session.previous is Some ==> cd_plan(
            session,
            args,
        ) is Ok,
{
}

/// A change of directory that worked leaves the session in the directory
/// that was entered and remembers the one that was left; one that failed
/// leaves the session as it was.
pub proof fn lemma_cd_moves_or_stays(session: SessionView, entered: Option<Seq<char>>)
    ensures
        entered matches Some(directory) ==> {
            &&& session.after_cd(entered).cwd == directory
            &&& session.after_cd(entered).previous == Some(session.cwd)
            &&& session.after_cd(entered).home == session.home
        },
        entered is None ==> session.after_cd(entered) == session,
{
}

/// After a change of directory, `cd -` leads back to the directory that
/// was left, and announces it.
pub proof fn lemma_cd_dash_leads_back(session: SessionView, directory: Seq<char>)
    ensures
        cd_plan(session.entered(directory), seq!["-"@]) == Ok::<CdPlanView, CdError>(
            CdPlanView { target: session.cwd, announce: true },
        ),
{
    reveal_strlit("-");
    reveal_strlit("~");
    assert("-"@[0] != "~"@[0]);
}

/// Going somewhere and back with `cd -` restores the working directory,
/// and a second `cd -` would lead to the place visited.
pub proof fn lemma_cd_there_and_back(session: SessionView, directory: Seq<char>)
    ensures
        session.entered(directory).entered(session.cwd).cwd == session.cwd,
        session.entered(directory).entered(session.cwd).previous == Some(directory),
        session.entered(directory).entered(session.cwd).home == session.home,
{
}

/// A line asks for nothing exactly when it is blank: empty, or whitespace
/// only.
pub proof fn lemma_idle_iff_blank(session: SessionView, line: Seq<char>)
    ensures
        action_for(session, parse(line)) is Idle <==> blank(line),
{
    reveal_strlit("exit");
    reveal_strlit("cd");
    reveal_strlit("history");
    lemma_tokens_none_iff_blank(line);
    lemma_tokens_solid(line);
    if tokens(line).len() == 0 {
        assert("exit"@.len() == 4 && "cd"@.len() == 2 && "history"@.len() == 7);
    }
}

} // verus!
