//! Running a shell command: which program to start, and what to do next as the
//! run goes on.

use vstd::prelude::*;
use vstd::string::*;

use crate::text::write_decimal;

verus! {

/// A command that is not done so many seconds after its start is killed, be it
/// that it runs or that something it left behind still holds its output.
pub const COMMAND_TIMEOUT_SECS: u64 = 120;

/// A program with its arguments.
#[derive(Debug, PartialEq, Eq)]
pub struct Program {
    pub name: String,
    pub args: Vec<String>,
}

impl View for Program {
    type V = (Seq<char>, Seq<Seq<char>>);

    open spec fn view(&self) -> (Seq<char>, Seq<Seq<char>>) {
        (self.name@, crate::text::texts(self.args@))
    }
}

/// The program that runs a shell command, and its arguments.
pub open spec fn shell_words(command: Seq<char>, windows: bool) -> (Seq<char>, Seq<Seq<char>>) {
    if windows {
        ("powershell"@, seq!["-NoProfile"@, "-NonInteractive"@, "-Command"@, command])
    } else {
        ("setsid"@, seq!["bash"@, "-c"@, command])
    }
}

/// The program that runs a shell command. Away from Windows the command gets a
/// session of its own, so that it can be signalled with all it started.
pub fn shell_command(command: &str, windows: bool) -> (program: Program)
    ensures
        program@ == shell_words(command@, windows),
{
    let mut args: Vec<String> = Vec::new();
    let name = if windows {
        args.push("-NoProfile".to_owned());
        args.push("-NonInteractive".to_owned());
        args.push("-Command".to_owned());
        "powershell".to_owned()
    } else {
        args.push("bash".to_owned());
        args.push("-c".to_owned());
        "setsid".to_owned()
    };
    args.push(command.to_owned());
    let program = Program { name, args };
    assert(program@.1 =~= shell_words(command@, windows).1);
    program
}

/// The program that ends a session, and its arguments.
pub open spec fn kill_words(pid: u32) -> (Seq<char>, Seq<Seq<char>>) {
    ("pkill"@, seq!["-TERM"@, "-s"@, crate::text::decimal(pid as nat)])
}

/// The program that asks a command, and all it started, to end. There is none
/// on Windows.
pub fn kill_process_group_on_timeout(pid: u32, windows: bool) -> (program: Option<Program>)
    ensures
        match program {
            Some(program) => !windows && program@ == kill_words(pid),
            None => windows,
        },
{
    if windows {
        return None;
    }
    let mut args: Vec<String> = Vec::new();
    args.push("-TERM".to_owned());
    args.push("-s".to_owned());
    args.push(write_decimal(pid as u64));
    let program = Program { name: "pkill".to_owned(), args };
    assert(program@.1 =~= kill_words(pid).1);
    Some(program)
}

/// How a command ended.
#[derive(Debug, PartialEq, Eq)]
pub enum Outcome {
    /// It ran to its end.
    Finished { exit_code: i32, success: bool, stdout: String, stderr: String },
    /// It did not, for this reason.
    Failed(String),
}

/// What an `Outcome` says.
pub ghost enum Ending {
    Finished { exit_code: i32, success: bool, stdout: Seq<char>, stderr: Seq<char> },
    Failed(Seq<char>),
}

impl View for Outcome {
    type V = Ending;

    open spec fn view(&self) -> Ending {
        match self {
            Outcome::Finished { exit_code, success, stdout, stderr } => Ending::Finished {
                exit_code: *exit_code,
                success: *success,
                stdout: stdout@,
                stderr: stderr@,
            },
            Outcome::Failed(message) => Ending::Failed(message@),
        }
    }
}

impl Outcome {
    /// The outcome as it is recorded for a background job.
    pub fn into_result(self) -> (result: Result<(i32, String, String), String>)
        ensures
            match (self@, result) {
                (Ending::Finished { exit_code, success: _, stdout, stderr }, Ok(parts)) => {
                    &&& parts.0 == exit_code
                    &&& parts.1@ == stdout
                    &&& parts.2@ == stderr
                },
                (Ending::Failed(message), Err(text)) => text@ == message,
                _ => false,
            },
    {
        match self {
            Outcome::Finished { exit_code, success: _, stdout, stderr } => Ok(
                (exit_code, stdout, stderr),
            ),
            Outcome::Failed(message) => Err(message),
        }
    }
}

/// What is cleared away when a command runs for too long.
#[derive(Debug, PartialEq, Eq)]
pub enum Cleanup {
    /// Run this program, and ignore how it ends.
    Signal(Program),
    /// Kill the command itself.
    Kill,
    /// Wait for the command's end.
    Reap,
    /// Stop reading its output.
    AbortReaders,
}

/// What a `Cleanup` says.
pub ghost enum CleanupStep {
    Signal((Seq<char>, Seq<Seq<char>>)),
    Kill,
    Reap,
    AbortReaders,
}

impl View for Cleanup {
    type V = CleanupStep;

    open spec fn view(&self) -> CleanupStep {
        match self {
            Cleanup::Signal(program) => CleanupStep::Signal(program@),
            Cleanup::Kill => CleanupStep::Kill,
            Cleanup::Reap => CleanupStep::Reap,
            Cleanup::AbortReaders => CleanupStep::AbortReaders,
        }
    }
}

pub open spec fn steps_view(steps: Seq<Cleanup>) -> Seq<CleanupStep> {
    steps.map_values(|step: Cleanup| step@)
}

/// What is cleared away after a timeout: all that the command started, where it
/// can be reached, then the command itself.
pub open spec fn timeout_steps(pid: Option<u32>, windows: bool) -> Seq<CleanupStep> {
    let own = seq![CleanupStep::Kill, CleanupStep::Reap, CleanupStep::AbortReaders];
    match pid {
        Some(pid) if !windows => seq![CleanupStep::Signal(kill_words(pid))] + own,
        _ => own,
    }
}

fn clean_up_after_timeout(pid: Option<u32>, windows: bool) -> (steps: Vec<Cleanup>)
    ensures
        steps_view(steps@) == timeout_steps(pid, windows),
{
    let mut steps: Vec<Cleanup> = Vec::new();
    if let Some(pid) = pid {
        if let Some(program) = kill_process_group_on_timeout(pid, windows) {
            steps.push(Cleanup::Signal(program));
        }
    }
    steps.push(Cleanup::Kill);
    steps.push(Cleanup::Reap);
    steps.push(Cleanup::AbortReaders);
    assert(steps_view(steps@) =~= timeout_steps(pid, windows));
    steps
}

/// What happened to a run.
#[derive(Debug, PartialEq, Eq)]
pub enum RunEvent {
    /// The command was started, and its output is being read.
    Spawned,
    /// It could not be started.
    SpawnFailed(String),
    /// It was started without a pipe for its output.
    StdoutMissing,
    /// It was started without a pipe for its error output.
    StderrMissing,
    /// It ended; the code is missing where a signal ended it.
    Exited { code: Option<i32>, success: bool },
    /// Waiting for its end failed.
    WaitFailed(String),
    /// The deadline passed. The process is the one that was started, whether or
    /// not it has ended, and is missing where it was never known.
    TimedOut { pid: Option<u32> },
    /// All is cleared away.
    CleanedUp,
    /// The output that was asked for was read, or reading it failed.
    Collected(Result<String, String>),
}

/// What a run needs next.
#[derive(Debug, PartialEq, Eq)]
pub enum RunAction {
    /// Start this program, and start reading its output.
    Spawn(Program),
    /// Wait for its end, until so many seconds after its start.
    AwaitExit { deadline_secs: u64 },
    /// Clear away.
    CleanUp(Vec<Cleanup>),
    /// Wait until all its output is read, or until so many seconds after its
    /// start.
    CollectStdout { deadline_secs: u64 },
    /// Wait until all its error output is read, or until so many seconds after
    /// its start.
    CollectStderr { deadline_secs: u64 },
    /// It is over.
    Finish(Outcome),
}

/// How far a run is.
#[derive(Debug, PartialEq, Eq)]
pub enum Phase {
    Spawning,
    Waiting,
    CleaningUp,
    ReadingStdout { code: Option<i32>, success: bool },
    ReadingStderr { code: Option<i32>, success: bool, stdout: String },
    Ended,
}

/// The run of one command. In the background, output that cannot be read makes
/// the run fail; otherwise it counts as empty.
#[derive(Debug, PartialEq, Eq)]
pub struct CommandRun {
    pub background: bool,
    pub windows: bool,
    pub phase: Phase,
}

/// What is said of a command that could not be run.
pub open spec fn execution_failed(reason: Seq<char>) -> Seq<char> {
    "Execution failed: "@ + reason
}

/// What is said of a command that ran for too long.
pub open spec fn execution_timed_out() -> Seq<char> {
    "Execution timed out after "@ + crate::text::decimal(COMMAND_TIMEOUT_SECS as nat) + "s"@
}

/// The exit code that is shown.
pub open spec fn shown_code(code: Option<i32>) -> i32 {
    match code {
        Some(code) => code,
        None => (-1) as i32,
    }
}

/// The run is over, and the command failed.
pub open spec fn fails(next: (CommandRun, RunAction), message: Seq<char>) -> bool {
    &&& next.0.phase is Ended
    &&& next.1 matches RunAction::Finish(outcome)
    &&& outcome@ == Ending::Failed(message)
}

/// The run goes on to the error output.
pub open spec fn goes_on_to_stderr(
    next: (CommandRun, RunAction),
    code: Option<i32>,
    success: bool,
    stdout: Seq<char>,
) -> bool {
    &&& next.0.phase matches Phase::ReadingStderr { code: c, success: s, stdout: text }
    &&& c == code
    &&& s == success
    &&& text@ == stdout
    &&& next.1 == (RunAction::CollectStderr { deadline_secs: COMMAND_TIMEOUT_SECS })
}

/// The run goes on to clear away after the deadline has passed.
pub open spec fn goes_on_to_cleanup(
    next: (CommandRun, RunAction),
    pid: Option<u32>,
    windows: bool,
) -> bool {
    &&& next.0.phase is CleaningUp
    &&& next.1 matches RunAction::CleanUp(steps)
    &&& steps_view(steps@) == timeout_steps(pid, windows)
}

/// The run is over, and the command ran to its end.
pub open spec fn finishes(
    next: (CommandRun, RunAction),
    code: Option<i32>,
    success: bool,
    stdout: Seq<char>,
    stderr: Seq<char>,
) -> bool {
    &&& next.0.phase is Ended
    &&& next.1 matches RunAction::Finish(outcome)
    &&& outcome@ == (Ending::Finished { exit_code: shown_code(code), success, stdout, stderr })
}

/// The deadline of an action that waits for the command, in seconds after its
/// start.
pub open spec fn deadline_of(action: RunAction) -> Option<u64> {
    match action {
        RunAction::AwaitExit { deadline_secs } => Some(deadline_secs),
        RunAction::CollectStdout { deadline_secs } => Some(deadline_secs),
        RunAction::CollectStderr { deadline_secs } => Some(deadline_secs),
        _ => None,
    }
}

impl CommandRun {
    /// How many events a run is from its end, at most.
    pub open spec fn events_left(&self) -> nat {
        match self.phase {
            Phase::Spawning => 5,
            Phase::Waiting => 4,
            Phase::ReadingStdout { .. } => 3,
            Phase::ReadingStderr { .. } => 2,
            Phase::CleaningUp => 1,
            Phase::Ended => 0,
        }
    }

    /// Whether the run waits for the command: for its end, or for its output.
    pub open spec fn waits(&self) -> bool {
        self.phase is Waiting || self.phase is ReadingStdout || self.phase is ReadingStderr
    }

    /// Whether an event can happen now.
    pub open spec fn expects(&self, event: RunEvent) -> bool {
        match self.phase {
            Phase::Spawning => match event {
                RunEvent::Spawned | RunEvent::SpawnFailed(_) => true,
                RunEvent::StdoutMissing | RunEvent::StderrMissing => self.background,
                _ => false,
            },
            Phase::Waiting => event is Exited || event is WaitFailed || event is TimedOut,
            Phase::CleaningUp => event is CleanedUp,
            Phase::ReadingStdout { .. } | Phase::ReadingStderr { .. } => event is Collected
                || event is TimedOut,
            Phase::Ended => false,
        }
    }

    /// What an event leads to.
    pub open spec fn leads_to(&self, event: RunEvent, next: (CommandRun, RunAction)) -> bool {
        &&& next.0.background == self.background
        &&& next.0.windows == self.windows
        &&& match (self.phase, event) {
            (Phase::Spawning, RunEvent::SpawnFailed(reason)) => fails(
                next,
                execution_failed(reason@),
            ),
            (Phase::Spawning, RunEvent::StdoutMissing) => fails(next, "stdout was not piped"@),
            (Phase::Spawning, RunEvent::StderrMissing) => fails(next, "stderr was not piped"@),
            (Phase::Spawning, RunEvent::Spawned) => {
                &&& next.0.phase is Waiting
                &&& next.1 == (RunAction::AwaitExit { deadline_secs: COMMAND_TIMEOUT_SECS })
            },
            (Phase::Waiting, RunEvent::WaitFailed(reason)) => fails(
                next,
                execution_failed(reason@),
            ),
            (
                Phase::Waiting | Phase::ReadingStdout { .. } | Phase::ReadingStderr { .. },
                RunEvent::TimedOut { pid },
            ) => goes_on_to_cleanup(next, pid, self.windows),
            (Phase::CleaningUp, RunEvent::CleanedUp) => fails(next, execution_timed_out()),
            (Phase::Waiting, RunEvent::Exited { code, success }) => {
                &&& next.0.phase == (Phase::ReadingStdout { code, success })
                &&& next.1 == (RunAction::CollectStdout { deadline_secs: COMMAND_TIMEOUT_SECS })
            },
            (
                Phase::ReadingStdout { code, success },
                RunEvent::Collected(Ok(text)),
            ) => goes_on_to_stderr(next, code, success, text@),
            (Phase::ReadingStdout { code, success }, RunEvent::Collected(Err(reason))) => if self.background {
                fails(next, reason@)
            } else {
                goes_on_to_stderr(next, code, success, Seq::empty())
            },
            (
                Phase::ReadingStderr { code, success, stdout },
                RunEvent::Collected(Ok(text)),
            ) => finishes(next, code, success, stdout@, text@),
            (
                Phase::ReadingStderr { code, success, stdout },
                RunEvent::Collected(Err(reason)),
            ) => if self.background {
                fails(next, reason@)
            } else {
                finishes(next, code, success, stdout@, Seq::empty())
            },
            _ => false,
        }
    }

    /// Begins a run, by starting the shell.
    pub fn begin(command: &str, background: bool, windows: bool) -> (start: (CommandRun, RunAction))
        ensures
            start.0 == (CommandRun { background, windows, phase: Phase::Spawning }),
            start.1 matches RunAction::Spawn(program) && program@ == shell_words(command@, windows),
    {
        (
            CommandRun { background, windows, phase: Phase::Spawning },
            RunAction::Spawn(shell_command(command, windows)),
        )
    }

    /// Goes on after an event. A run ends after a bounded number of events, and
    /// asks to finish when it has ended and not before. Wherever it waits for
    /// the command it can be told that the deadline has passed.
    pub fn next(self, event: RunEvent) -> (next: (CommandRun, RunAction))
        requires
            self.expects(event),
        ensures
            self.leads_to(event, next),
            next.0.events_left() < self.events_left(),
            next.0.phase is Ended <==> next.1 is Finish,
            next.0.waits() <==> deadline_of(next.1) == Some(COMMAND_TIMEOUT_SECS),
    {
        let CommandRun { background, windows, phase } = self;
        let (phase, action) = match (phase, event) {
            (Phase::Spawning, RunEvent::Spawned) => (
                Phase::Waiting,
                RunAction::AwaitExit { deadline_secs: COMMAND_TIMEOUT_SECS },
            ),
            (Phase::Spawning, RunEvent::StdoutMissing) => failed("stdout was not piped".to_owned()),
            (Phase::Spawning, RunEvent::StderrMissing) => failed("stderr was not piped".to_owned()),
            (Phase::Spawning, RunEvent::SpawnFailed(reason)) => failed(
                write_execution_failed(reason.as_str()),
            ),
            (Phase::Waiting, RunEvent::WaitFailed(reason)) => failed(
                write_execution_failed(reason.as_str()),
            ),
            (
                Phase::Waiting | Phase::ReadingStdout { .. } | Phase::ReadingStderr { .. },
                RunEvent::TimedOut { pid },
            ) => (
                Phase::CleaningUp,
                RunAction::CleanUp(clean_up_after_timeout(pid, windows)),
            ),
            (Phase::Waiting, RunEvent::Exited { code, success }) => (
                Phase::ReadingStdout { code, success },
                RunAction::CollectStdout { deadline_secs: COMMAND_TIMEOUT_SECS },
            ),
            (Phase::CleaningUp, RunEvent::CleanedUp) => failed(write_execution_timed_out()),
            (Phase::ReadingStdout { code, success }, RunEvent::Collected(read)) => match read {
                Ok(stdout) => (
                    Phase::ReadingStderr { code, success, stdout },
                    RunAction::CollectStderr { deadline_secs: COMMAND_TIMEOUT_SECS },
                ),
                Err(reason) => if background {
                    failed(reason)
                } else {
                    (
                        Phase::ReadingStderr { code, success, stdout: String::new() },
                        RunAction::CollectStderr { deadline_secs: COMMAND_TIMEOUT_SECS },
                    )
                },
            },
            (Phase::ReadingStderr { code, success, stdout }, RunEvent::Collected(read)) => match read {
                Ok(stderr) => finished(code, success, stdout, stderr),
                Err(reason) => if background {
                    failed(reason)
                } else {
                    finished(code, success, stdout, String::new())
                },
            },
            _ => failed(String::new()),
        };
        (CommandRun { background, windows, phase }, action)
    }
}

fn failed(message: String) -> (end: (Phase, RunAction))
    ensures
        end.0 is Ended,
        end.1 == RunAction::Finish(Outcome::Failed(message)),
{
    (Phase::Ended, RunAction::Finish(Outcome::Failed(message)))
}

fn finished(code: Option<i32>, success: bool, stdout: String, stderr: String) -> (end: (
    Phase,
    RunAction,
))
    ensures
        end.0 is Ended,
        end.1 == RunAction::Finish(
            (Outcome::Finished { exit_code: shown_code(code), success, stdout, stderr }),
        ),
{
    let exit_code: i32 = match code {
        Some(code) => code,
        None => -1,
    };
    (Phase::Ended, RunAction::Finish(Outcome::Finished { exit_code, success, stdout, stderr }))
}

fn write_execution_failed(reason: &str) -> (text: String)
    ensures
        text@ == execution_failed(reason@),
{
    let mut text = "Execution failed: ".to_owned();
    text.append(reason);
    text
}

fn write_execution_timed_out() -> (text: String)
    ensures
        text@ == execution_timed_out(),
{
    let mut text = "Execution timed out after ".to_owned();
    text.append(write_decimal(COMMAND_TIMEOUT_SECS).as_str());
    text.append("s");
    text
}

/// A run is over after five events at the latest, whatever they are, and has
/// then said how the command ended.
pub proof fn law_run_ends(
    runs: Seq<CommandRun>,
    events: Seq<RunEvent>,
    actions: Seq<RunAction>,
)
    requires
        runs.len() == events.len() + 1,
        actions.len() == events.len(),
        runs[0].phase is Spawning,
        forall|i: int|
            0 <= i < events.len() ==> runs[i].expects(#[trigger] events[i]) && runs[i].leads_to(
                events[i],
                (runs[i + 1], actions[i]),
            ),
    ensures
        events.len() <= 5,
        runs.last().phase is Ended <==> (events.len() > 0 && actions.last() is Finish),
    decreases events.len(),
{
    lemma_events_left(runs, events, actions);
    if events.len() > 0 {
        let n = events.len() - 1;
        assert(runs[n].leads_to(events[n], (runs[n + 1], actions[n])));
    }
}

proof fn lemma_events_left(
    runs: Seq<CommandRun>,
    events: Seq<RunEvent>,
    actions: Seq<RunAction>,
)
    requires
        runs.len() == events.len() + 1,
        actions.len() == events.len(),
        forall|i: int|
            0 <= i < events.len() ==> runs[i].expects(#[trigger] events[i]) && runs[i].leads_to(
                events[i],
                (runs[i + 1], actions[i]),
            ),
    ensures
        runs.last().events_left() + events.len() <= runs[0].events_left(),
    decreases events.len(),
{
    if events.len() > 0 {
        let n = events.len() - 1;
        assert forall|i: int| 0 <= i < n implies runs.drop_last()[i].expects(
            #[trigger] events.drop_last()[i],
        ) && runs.drop_last()[i].leads_to(
            events.drop_last()[i],
            (runs.drop_last()[i + 1], actions.drop_last()[i]),
        ) by {
            assert(runs[i].expects(events[i]));
        }
        lemma_events_left(runs.drop_last(), events.drop_last(), actions.drop_last());
        assert(runs[n].expects(events[n]));
    }
}

/// No command holds a run up past its deadline. Wherever the run waits for the
/// command, for its end or for output that something it left behind still
/// holds, in the foreground or in the background, it can be told that the
/// deadline has passed. The command is then killed, and waited for; all that it
/// started is signalled before, where its process is known and signals reach
/// it; and the run fails with a message that gives the limit.
pub proof fn law_timeout(
    run: CommandRun,
    pid: Option<u32>,
    cleaning: (CommandRun, RunAction),
    end: (CommandRun, RunAction),
)
    requires
        run.waits(),
        run.leads_to(RunEvent::TimedOut { pid }, cleaning),
        cleaning.0.leads_to(RunEvent::CleanedUp, end),
    ensures
        run.expects(RunEvent::TimedOut { pid }),
        cleaning.0.expects(RunEvent::CleanedUp),
        cleaning.1 matches RunAction::CleanUp(steps) && {
            let done = steps_view(steps@);
            &&& done.contains(CleanupStep::Kill)
            &&& done.contains(CleanupStep::Reap)
            &&& pid is Some && !run.windows ==> done[0] == CleanupStep::Signal(
                kill_words(pid->Some_0),
            )
        },
        end.1 matches RunAction::Finish(outcome) && outcome@ == Ending::Failed(
            "Execution timed out after 120s"@,
        ),
{
    let steps = timeout_steps(pid, run.windows);
    let k = steps.len() - 3;
    assert(steps[k] == CleanupStep::Kill);
    assert(steps[k + 1] == CleanupStep::Reap);
    reveal_strlit("Execution timed out after 120s");
    reveal_strlit("Execution timed out after ");
    reveal_strlit("s");
    reveal_with_fuel(crate::text::decimal, 4);
    assert(crate::text::decimal(120) =~= seq!['1', '2', '0']);
    assert(execution_timed_out() =~= "Execution timed out after 120s"@);
}

/// A program has the name and the arguments that it holds.
pub proof fn law_program_view(program: Program)
    ensures
        program@.0 == program.name@,
        program@.1.len() == program.args@.len(),
        forall|i: int| 0 <= i < program.args@.len() ==> #[trigger] program@.1[i] == program.args@[i]@,
{
    crate::text::law_texts(program.args@);
}

/// An outcome says what it holds.
pub proof fn law_outcome_view(
    exit_code: i32,
    success: bool,
    stdout: String,
    stderr: String,
    message: String,
)
    ensures
        (Outcome::Finished { exit_code, success, stdout, stderr })@ == (Ending::Finished {
            exit_code,
            success,
            stdout: stdout@,
            stderr: stderr@,
        }),
        Outcome::Failed(message)@ == Ending::Failed(message@),
{
}

/// A command is handed to the shell whole and as it is, as its last argument: to
/// `bash` in a session of its own, and to PowerShell on Windows.
pub proof fn law_shell_words(command: Seq<char>, windows: bool)
    ensures
        shell_words(command, windows).1.len() > 0,
        shell_words(command, windows).1.last() == command,
        !windows ==> {
            let (name, args) = shell_words(command, windows);
            &&& name == "setsid"@
            &&& args.len() == 3
            &&& args[0] == "bash"@
            &&& args[1] == "-c"@
        },
        windows ==> {
            let (name, args) = shell_words(command, windows);
            &&& name == "powershell"@
            &&& args.len() == 4
            &&& args[0] == "-NoProfile"@
            &&& args[1] == "-NonInteractive"@
            &&& args[2] == "-Command"@
        },
{
}

/// The session that is asked to end is that of the process, whose number stands
/// in the last argument.
pub proof fn law_kill_words(pid: u32)
    ensures
        kill_words(pid).0 == "pkill"@,
        kill_words(pid).1.len() == 3,
        kill_words(pid).1[0] == "-TERM"@,
        kill_words(pid).1[1] == "-s"@,
        crate::text::all_digits(kill_words(pid).1[2]),
        crate::text::number(kill_words(pid).1[2]) == pid,
        kill_words(pid).1[2].len() > 0,
        pid > 0 ==> kill_words(pid).1[2][0] != '0',
{
    crate::text::law_decimal_reads_back(pid as nat);
}

/// What is cleared away, in order: what the command started, where its process is
/// known and signals reach it, then the command, its end, and the readers.
pub proof fn law_clean_up(pid: u32, windows: bool)
    ensures
        timeout_steps(Some(pid), false) == seq![CleanupStep::Signal(kill_words(pid))]
            + timeout_steps(None, windows),
        timeout_steps(Some(pid), true) == timeout_steps(None, windows),
        timeout_steps(None, windows).len() == 3,
        timeout_steps(None, windows)[0] is Kill,
        timeout_steps(None, windows)[1] is Reap,
        timeout_steps(None, windows)[2] is AbortReaders,
{
}

/// The steps of a cleanup are those that its list holds, each in its place.
pub proof fn law_steps_view(steps: Seq<Cleanup>)
    ensures
        steps_view(steps).len() == steps.len(),
        forall|i: int|
            0 <= i < steps.len() ==> match steps[i] {
                Cleanup::Signal(program) => #[trigger] steps_view(steps)[i]
                    == CleanupStep::Signal(program@),
                Cleanup::Kill => steps_view(steps)[i] is Kill,
                Cleanup::Reap => steps_view(steps)[i] is Reap,
                Cleanup::AbortReaders => steps_view(steps)[i] is AbortReaders,
            },
{
}

/// A command that ran to its end and whose output was read ends with what it wrote
/// to each of its streams, with whether it succeeded, and with its exit code, or
/// -1 where a signal ended it. It has 120 seconds for all of that.
pub proof fn law_finished_run(
    run: CommandRun,
    code: Option<i32>,
    success: bool,
    stdout: String,
    stderr: String,
    started: (CommandRun, RunAction),
    exited: (CommandRun, RunAction),
    halfway: (CommandRun, RunAction),
    end: (CommandRun, RunAction),
)
    requires
        run.phase is Spawning,
        run.leads_to(RunEvent::Spawned, started),
        started.0.leads_to(RunEvent::Exited { code, success }, exited),
        exited.0.leads_to(RunEvent::Collected(Ok(stdout)), halfway),
        halfway.0.leads_to(RunEvent::Collected(Ok(stderr)), end),
    ensures
        started.0.background == run.background && started.0.windows == run.windows,
        exited.0.background == run.background && exited.0.windows == run.windows,
        halfway.0.background == run.background && halfway.0.windows == run.windows,
        started.1 == (RunAction::AwaitExit { deadline_secs: 120 }),
        exited.1 == (RunAction::CollectStdout { deadline_secs: 120 }),
        halfway.1 == (RunAction::CollectStderr { deadline_secs: 120 }),
        end.1 matches RunAction::Finish(
            Outcome::Finished { exit_code, success: ok, stdout: out, stderr: err },
        ) && {
            &&& code matches Some(value) ==> exit_code == value
            &&& code is None ==> exit_code == -1
            &&& ok == success
            &&& out@ == stdout@
            &&& err@ == stderr@
        },
{
}

/// A run takes whatever can happen: the command can be started or not, end with any
/// code or not be waited for, and its output can be read or not.
pub proof fn law_run_expects(
    run: CommandRun,
    reason: String,
    code: Option<i32>,
    success: bool,
    read: Result<String, String>,
)
    ensures
        run.phase is Spawning ==> run.expects(RunEvent::Spawned) && run.expects(
            RunEvent::SpawnFailed(reason),
        ),
        run.phase is Spawning && run.background ==> run.expects(RunEvent::StdoutMissing)
            && run.expects(RunEvent::StderrMissing),
        run.phase is Waiting ==> run.expects(RunEvent::Exited { code, success }) && run.expects(
            RunEvent::WaitFailed(reason),
        ),
        run.phase is ReadingStdout || run.phase is ReadingStderr ==> run.expects(
            RunEvent::Collected(read),
        ),
        run.phase is CleaningUp ==> run.expects(RunEvent::CleanedUp),
{
}

/// Output that could not be read counts as empty in the foreground, whichever of
/// the two it is, and makes a run in the background fail with the reason.
pub proof fn law_unreadable_output(
    run: CommandRun,
    code: Option<i32>,
    success: bool,
    first: Result<String, String>,
    second: Result<String, String>,
    exited: (CommandRun, RunAction),
    halfway: (CommandRun, RunAction),
    end: (CommandRun, RunAction),
)
    requires
        run.phase is Waiting,
        run.leads_to(RunEvent::Exited { code, success }, exited),
        exited.0.leads_to(RunEvent::Collected(first), halfway),
        halfway.1 is Finish || halfway.0.leads_to(RunEvent::Collected(second), end),
    ensures
        run.background && first is Err ==> (halfway.1 matches RunAction::Finish(
            Outcome::Failed(message),
        ) && message@ == first->Err_0@),
        !run.background || first is Ok ==> !(halfway.1 is Finish),
        run.background && first is Ok && second is Err ==> (end.1 matches RunAction::Finish(
            Outcome::Failed(message),
        ) && message@ == second->Err_0@),
        !run.background ==> (end.1 matches RunAction::Finish(
            Outcome::Finished { exit_code, success: ok, stdout, stderr },
        ) && {
            &&& code matches Some(value) ==> exit_code == value
            &&& code is None ==> exit_code == -1
            &&& ok == success
            &&& first matches Ok(text) ==> stdout@ == text@
            &&& first is Err ==> stdout@.len() == 0
            &&& second matches Ok(text) ==> stderr@ == text@
            &&& second is Err ==> stderr@.len() == 0
        }),
{
}

/// A command that could not be started, or not waited for, fails with the reason.
pub proof fn law_failed_run(
    run: CommandRun,
    reason: String,
    event: RunEvent,
    end: (CommandRun, RunAction),
)
    requires
        event == RunEvent::SpawnFailed(reason) && run.phase is Spawning || event
            == RunEvent::WaitFailed(reason) && run.phase is Waiting || event is StdoutMissing
            && run.phase is Spawning || event is StderrMissing && run.phase is Spawning,
        run.leads_to(event, end),
    ensures
        end.1 matches RunAction::Finish(Outcome::Failed(message)) && {
            &&& event is SpawnFailed || event is WaitFailed ==> message@.take(18)
                == "Execution failed: "@ && message@.skip(18) == reason@
            &&& event is StdoutMissing ==> message@ == "stdout was not piped"@
            &&& event is StderrMissing ==> message@ == "stderr was not piped"@
        },
{
    reveal_strlit("Execution failed: ");
    assert(execution_failed(reason@).take(18) =~= "Execution failed: "@);
    assert(execution_failed(reason@).skip(18) =~= reason@);
}

} // verus!
