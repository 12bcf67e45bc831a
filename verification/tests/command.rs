use mcp_shell_server::command::{
    kill_process_group_on_timeout, shell_command, Cleanup, CommandRun, Outcome, Phase, RunAction,
    RunEvent,
};

fn waiting(background: bool) -> CommandRun {
    CommandRun { background, windows: false, phase: Phase::Waiting }
}

fn message(action: RunAction) -> String {
    match action {
        RunAction::Finish(Outcome::Failed(message)) => message,
        other => panic!("{other:?}"),
    }
}

#[test]
fn a_command_is_run_by_the_shell_of_the_platform() {
    let unix = shell_command("echo hi", false);
    assert_eq!(unix.name, "setsid");
    assert_eq!(unix.args, vec!["bash", "-c", "echo hi"]);
    let windows = shell_command("echo hi", true);
    assert_eq!(windows.name, "powershell");
    assert_eq!(windows.args, vec!["-NoProfile", "-NonInteractive", "-Command", "echo hi"]);
}

#[test]
fn a_session_is_signalled_where_there_is_one() {
    let program = kill_process_group_on_timeout(4711, false).unwrap();
    assert_eq!(program.name, "pkill");
    assert_eq!(program.args, vec!["-TERM", "-s", "4711"]);
    assert_eq!(kill_process_group_on_timeout(4711, true), None);
}

#[test]
fn a_run_goes_from_the_start_to_the_output() {
    let (run, action) = CommandRun::begin("ls", false, false);
    assert_eq!(action, RunAction::Spawn(shell_command("ls", false)));
    let (run, action) = run.next(RunEvent::Spawned);
    assert_eq!(action, RunAction::AwaitExit { deadline_secs: 120 });
    let (run, action) = run.next(RunEvent::Exited { code: Some(2), success: false });
    assert_eq!(action, RunAction::CollectStdout { deadline_secs: 120 });
    let (run, action) = run.next(RunEvent::Collected(Ok("out".to_string())));
    assert_eq!(action, RunAction::CollectStderr { deadline_secs: 120 });
    let (run, action) = run.next(RunEvent::Collected(Ok("err".to_string())));
    assert_eq!(run.phase, Phase::Ended);
    let outcome = Outcome::Finished {
        exit_code: 2,
        success: false,
        stdout: "out".to_string(),
        stderr: "err".to_string(),
    };
    assert_eq!(action, RunAction::Finish(outcome));
}

#[test]
fn a_command_that_a_signal_ended_has_no_code_of_its_own() {
    let (run, _) = waiting(false).next(RunEvent::Exited { code: None, success: false });
    let (run, _) = run.next(RunEvent::Collected(Err("gone".to_string())));
    let (_, action) = run.next(RunEvent::Collected(Err("gone".to_string())));
    let outcome = Outcome::Finished {
        exit_code: -1,
        success: false,
        stdout: String::new(),
        stderr: String::new(),
    };
    assert_eq!(action, RunAction::Finish(outcome));
}

#[test]
fn output_that_cannot_be_read_fails_a_background_run() {
    let exited = || waiting(true).next(RunEvent::Exited { code: Some(0), success: true }).0;
    let (_, action) = exited().next(RunEvent::Collected(Err("gone".to_string())));
    assert_eq!(message(action), "gone");
    let (run, _) = exited().next(RunEvent::Collected(Ok(String::new())));
    let (_, action) = run.next(RunEvent::Collected(Err("lost".to_string())));
    assert_eq!(message(action), "lost");
}

#[test]
fn runs_that_fail_say_why() {
    let begin = || CommandRun::begin("ls", true, false).0;
    let (_, action) = begin().next(RunEvent::SpawnFailed("no shell".to_string()));
    assert_eq!(message(action), "Execution failed: no shell");
    assert_eq!(message(begin().next(RunEvent::StdoutMissing).1), "stdout was not piped");
    assert_eq!(message(begin().next(RunEvent::StderrMissing).1), "stderr was not piped");
    let (_, action) = waiting(false).next(RunEvent::WaitFailed("lost it".to_string()));
    assert_eq!(message(action), "Execution failed: lost it");
}

#[test]
fn a_command_that_runs_for_too_long_is_cleared_away() {
    let (run, action) = waiting(true).next(RunEvent::TimedOut { pid: Some(7) });
    let signal = kill_process_group_on_timeout(7, false).unwrap();
    let steps =
        vec![Cleanup::Signal(signal), Cleanup::Kill, Cleanup::Reap, Cleanup::AbortReaders];
    assert_eq!(action, RunAction::CleanUp(steps));
    let (_, action) = run.next(RunEvent::CleanedUp);
    assert_eq!(message(action), "Execution timed out after 120s");

    let (_, action) = waiting(false).next(RunEvent::TimedOut { pid: None });
    let steps = vec![Cleanup::Kill, Cleanup::Reap, Cleanup::AbortReaders];
    assert_eq!(action, RunAction::CleanUp(steps));
}

#[test]
fn what_a_command_leaves_behind_does_not_outlast_the_deadline() {
    for background in [false, true] {
        let exited =
            || waiting(background).next(RunEvent::Exited { code: Some(0), success: true }).0;
        let reading_stdout = exited();
        let reading_stderr = exited().next(RunEvent::Collected(Ok("out".to_string()))).0;
        for run in [reading_stdout, reading_stderr] {
            let (run, action) = run.next(RunEvent::TimedOut { pid: Some(7) });
            let signal = kill_process_group_on_timeout(7, false).unwrap();
            let steps =
                vec![Cleanup::Signal(signal), Cleanup::Kill, Cleanup::Reap, Cleanup::AbortReaders];
            assert_eq!(action, RunAction::CleanUp(steps));
            let (run, action) = run.next(RunEvent::CleanedUp);
            assert_eq!(run.phase, Phase::Ended);
            assert_eq!(message(action), "Execution timed out after 120s");
        }
    }
}

#[test]
fn outcomes_are_recorded_as_results() {
    let finished = Outcome::Finished {
        exit_code: 1,
        success: false,
        stdout: "o".to_string(),
        stderr: "e".to_string(),
    };
    assert_eq!(finished.into_result(), Ok((1, "o".to_string(), "e".to_string())));
    assert_eq!(Outcome::Failed("no".to_string()).into_result(), Err("no".to_string()));
}
