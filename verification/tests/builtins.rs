use microbash::{
    history_shown, interpret, launched, prompt, Action, CdError, CdPlan, CommandLine,
    HistoryFailure, Message, Session, Stream,
};

fn out(text: &str) -> Message {
    Message { stream: Stream::Output, text: text.to_string() }
}

fn err(text: &str) -> Message {
    Message { stream: Stream::Error, text: text.to_string() }
}

fn session() -> Session {
    Session::new(
        "/tmp".to_string(),
        Some("/var/log".to_string()),
        Some("/home/user".to_string()),
    )
}

fn cd(line: &str, session: &Session) -> Result<CdPlan, CdError> {
    CommandLine::new(line.to_string()).cd_command(session)
}

fn go(target: &str, announce: bool) -> CdPlan {
    CdPlan { target: target.to_string(), announce }
}

#[test]
fn cd_without_argument_goes_home() {
    assert_eq!(cd("cd\n", &session()), Ok(go("/home/user", false)));
}

#[test]
fn cd_tilde_goes_home() {
    assert_eq!(cd("cd ~\n", &session()), Ok(go("/home/user", false)));
}

#[test]
fn cd_dash_goes_back_and_announces() {
    assert_eq!(cd("cd -\n", &session()), Ok(go("/var/log", true)));
}

#[test]
fn cd_path_is_taken_as_written() {
    assert_eq!(cd("cd /\n", &session()), Ok(go("/", false)));
    assert_eq!(cd("cd ..\n", &session()), Ok(go("..", false)));
    assert_eq!(cd("cd src/bin\n", &session()), Ok(go("src/bin", false)));
    assert_eq!(cd("cd ~/code\n", &session()), Ok(go("~/code", false)));
    assert_eq!(cd("cd --\n", &session()), Ok(go("--", false)));
}

#[test]
fn cd_two_arguments_are_too_many() {
    assert_eq!(cd("cd a b\n", &session()), Err(CdError::TooManyArguments));
    assert_eq!(cd("cd - ~\n", &session()), Err(CdError::TooManyArguments));
    assert_eq!(cd("cd a b c d\n", &session()), Err(CdError::TooManyArguments));
}

#[test]
fn cd_home_unknown() {
    let lost = Session::new("/tmp".to_string(), Some("/".to_string()), None);
    assert_eq!(cd("cd\n", &lost), Err(CdError::HomeUnknown));
    assert_eq!(cd("cd ~\n", &lost), Err(CdError::HomeUnknown));
    assert_eq!(cd("cd /etc\n", &lost), Ok(go("/etc", false)));
    assert_eq!(cd("cd -\n", &lost), Ok(go("/", true)));
}

#[test]
fn cd_no_previous_directory() {
    let fresh = Session::new("/tmp".to_string(), None, Some("/root".to_string()));
    assert_eq!(cd("cd -\n", &fresh), Err(CdError::NoPreviousDirectory));
    assert_eq!(cd("cd\n", &fresh), Ok(go("/root", false)));
}

#[test]
fn cd_leaves_the_session_alone() {
    let before = session();
    let after = session();
    for line in ["cd\n", "cd /\n", "cd -\n", "cd a b\n", "cd ~\n"] {
        let _ = cd(line, &after);
        assert_eq!(after, before);
    }
}

#[test]
fn enter_moves_the_markers() {
    let mut s = session();
    s.enter("/".to_string());
    assert_eq!(s.cwd, "/");
    assert_eq!(s.previous, Some("/tmp".to_string()));
    assert_eq!(s.home, Some("/home/user".to_string()));
}

#[test]
fn cd_dash_after_enter_leads_back() {
    for start in ["/tmp", "/", "/a b", ""] {
        for visited in ["/", "/usr/lib", "relative"] {
            let mut s = Session::new(start.to_string(), None, None);
            s.enter(visited.to_string());
            assert_eq!(cd("cd -\n", &s), Ok(go(start, true)));
            s.enter(start.to_string());
            assert_eq!(s.cwd, start);
            assert_eq!(cd("cd -\n", &s), Ok(go(visited, true)));
        }
    }
}

#[test]
fn dispatch_exit() {
    assert_eq!(interpret(&session(), "exit\n".to_string()), Action::Exit);
    assert_eq!(interpret(&session(), "  exit  ".to_string()), Action::Exit);
}

#[test]
fn dispatch_exit_ignores_arguments() {
    assert_eq!(interpret(&session(), "exit 3\n".to_string()), Action::Exit);
    assert_eq!(interpret(&session(), "exit now please\n".to_string()), Action::Exit);
}

#[test]
fn dispatch_cd() {
    assert_eq!(
        interpret(&session(), "cd /usr\n".to_string()),
        Action::ChangeDirectory(go("/usr", false))
    );
    assert_eq!(
        interpret(&session(), "cd -\n".to_string()),
        Action::ChangeDirectory(go("/var/log", true))
    );
    assert_eq!(
        interpret(&session(), "cd a b\n".to_string()),
        Action::Refuse(CdError::TooManyArguments)
    );
}

#[test]
fn dispatch_history() {
    assert_eq!(interpret(&session(), "history\n".to_string()), Action::ShowHistory);
    assert_eq!(interpret(&session(), "history 10\n".to_string()), Action::ShowHistory);
}

#[test]
fn dispatch_blank_line_asks_for_nothing() {
    for line in ["", "\n", " ", " \t \n", "\u{3000}\n"] {
        let s = session();
        assert_eq!(interpret(&s, line.to_string()), Action::Idle);
        assert_eq!(s, session());
    }
}

#[test]
fn dispatch_only_blank_lines_ask_for_nothing() {
    for line in ["x", " exit", "cd", "history", "ls -l", "\u{200B}", "-"] {
        assert_ne!(interpret(&session(), line.to_string()), Action::Idle);
    }
}

#[test]
fn dispatch_other_names_are_programs() {
    assert_eq!(
        interpret(&session(), "ls -l /tmp\n".to_string()),
        Action::Launch {
            program: "ls".to_string(),
            arguments: vec!["-l".to_string(), "/tmp".to_string()],
        }
    );
    assert_eq!(
        interpret(&session(), "pwd\n".to_string()),
        Action::Launch { program: "pwd".to_string(), arguments: vec![] }
    );
}

#[test]
fn dispatch_builtin_names_are_exact() {
    for name in ["Exit", "EXIT", "exit!", "cd.", "CD", "histor", "history2", "exitcd"] {
        assert_eq!(
            interpret(&session(), format!("{} x\n", name)),
            Action::Launch { program: name.to_string(), arguments: vec!["x".to_string()] }
        );
    }
}

#[test]
fn dispatch_agrees_with_interpret() {
    for line in ["", "exit", "cd", "cd - x", "history", "ls -a\n"] {
        let parsed = CommandLine::new(line.to_string());
        assert_eq!(parsed.dispatch(&session()), interpret(&session(), line.to_string()));
    }
}

#[test]
fn prompt_shows_the_directory() {
    assert_eq!(prompt("/"), out("/$ "));
    assert_eq!(prompt("/tmp"), out("/tmp$ "));
    assert_eq!(prompt("/home/user/my files"), out("/home/user/my files$ "));
    assert_eq!(prompt(""), out("$ "));
}

#[test]
fn cd_refusals_are_complaints() {
    assert_eq!(CdError::TooManyArguments.report(), err("cd: too many arguments\n"));
    assert_eq!(CdError::HomeUnknown.report(), err("cd: HOME not set\n"));
    assert_eq!(CdError::NoPreviousDirectory.report(), err("cd: OLDPWD not set\n"));
}

#[test]
fn cd_announces_only_the_way_back() {
    assert_eq!(go("/tmp", true).announcement(), Some(out("/tmp\n\n")));
    assert_eq!(go("/tmp", false).announcement(), None);
    assert_eq!(cd("cd -\n", &session()).unwrap().announcement(), Some(out("/var/log\n\n")));
    assert_eq!(cd("cd /var/log\n", &session()).unwrap().announcement(), None);
}

#[test]
fn cd_finished_records_a_change_that_worked() {
    let mut s = session();
    let said = s.cd_finished(&go("..", false), Some("/".to_string()));
    assert_eq!(said, None);
    assert_eq!(s.cwd, "/");
    assert_eq!(s.previous, Some("/tmp".to_string()));
    assert_eq!(s.home, Some("/home/user".to_string()));
}

#[test]
fn cd_finished_complains_and_stays_where_it_failed() {
    let mut s = session();
    let said = s.cd_finished(&go("/nowhere", false), None);
    assert_eq!(said, Some(err("cd: No such file or directory: /nowhere\n")));
    assert_eq!(s, session());

    let said = s.cd_finished(&go("", true), None);
    assert_eq!(said, Some(err("cd: No such file or directory: \n")));
    assert_eq!(s, session());
}

#[test]
fn launched_passes_the_output_on() {
    assert_eq!(launched("pwd", Some("/\n".to_string())), out("/\n"));
    assert_eq!(launched("true", Some(String::new())), out(""));
    assert_eq!(launched("printf", Some("no end of line".to_string())), out("no end of line"));
}

#[test]
fn launched_complains_of_a_missing_program() {
    assert_eq!(
        launched("frobnicate", None),
        err("microbash: command not found: frobnicate\n")
    );
}

#[test]
fn history_failures_are_warnings() {
    assert_eq!(HistoryFailure::Open.report(), err("Couldn't open file\n"));
    assert_eq!(HistoryFailure::Write.report(), err("Couldn't write to file\n"));
    assert_eq!(HistoryFailure::Read.report(), err("Couldn't read file\n"));
}

#[test]
fn history_shown_lists_the_whole_file() {
    assert_eq!(
        history_shown(Ok("ls\ncd /\n\nexit\n".to_string())),
        out("History:\nls\ncd /\n\nexit\n\n")
    );
    assert_eq!(history_shown(Ok(String::new())), out("History:\n\n"));
}

#[test]
fn history_shown_warns_of_a_failure() {
    assert_eq!(history_shown(Err(HistoryFailure::Open)), err("Couldn't open file\n"));
    assert_eq!(history_shown(Err(HistoryFailure::Read)), err("Couldn't read file\n"));
}

#[test]
fn history_path_lies_under_home() {
    assert_eq!(session().history_path(), Ok("/home/user/.microbash_history".to_string()));
    let root = Session::new("/".to_string(), None, Some("/".to_string()));
    assert_eq!(root.history_path(), Ok("//.microbash_history".to_string()));
}

#[test]
fn history_path_needs_a_home() {
    let lost = Session::new("/".to_string(), None, None);
    assert_eq!(lost.history_path(), Err(HistoryFailure::Open));
}

#[test]
fn scenario_there_and_back() {
    let mut s = Session::new("/tmp".to_string(), None, Some("/root".to_string()));
    assert_eq!(prompt(&s.cwd), out("/tmp$ "));

    let Action::ChangeDirectory(plan) = interpret(&s, "cd /\n".to_string()) else {
        panic!("cd changes the directory");
    };
    assert_eq!(plan, go("/", false));
    assert_eq!(plan.announcement(), None);
    assert_eq!(s.cd_finished(&plan, Some("/".to_string())), None);
    assert_eq!(prompt(&s.cwd), out("/$ "));

    let action = interpret(&s, "pwd\n".to_string());
    assert_eq!(action, Action::Launch { program: "pwd".to_string(), arguments: vec![] });
    assert_eq!(launched("pwd", Some("/\n".to_string())), out("/\n"));

    let Action::ChangeDirectory(plan) = interpret(&s, "cd -\n".to_string()) else {
        panic!("cd changes the directory");
    };
    assert_eq!(plan, go("/tmp", true));
    assert_eq!(plan.announcement(), Some(out("/tmp\n\n")));
    assert_eq!(s.cd_finished(&plan, Some("/tmp".to_string())), None);
    assert_eq!(s.cwd, "/tmp");
    assert_eq!(prompt(&s.cwd), out("/tmp$ "));

    assert_eq!(interpret(&s, "exit\n".to_string()), Action::Exit);
}

#[test]
fn scenario_a_missing_program_does_not_end_the_loop() {
    let s = session();
    let action = interpret(&s, "frobnicate\n".to_string());
    assert_eq!(action, Action::Launch { program: "frobnicate".to_string(), arguments: vec![] });
    assert_eq!(
        launched("frobnicate", None),
        err("microbash: command not found: frobnicate\n")
    );
    assert_eq!(s, session());
    assert_ne!(interpret(&s, "ls\n".to_string()), Action::Exit);
}
