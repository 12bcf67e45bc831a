//! Registering a node with a dispatcher: what is sent, what the answer means,
//! and when to try again.

use vstd::prelude::*;
use vstd::string::*;

use crate::json::{Json, Tree};
use crate::serve::to_line;
use crate::text::{join, same_text, trim, write_decimal};

verus! {

/// The version of the registration protocol.
pub const PROTOCOL_VERSION: i64 = 3;

/// After so many failures in a row there is no further attempt.
pub const MAX_CONSECUTIVE_FAILURES: u32 = 5;

/// The message that registers a node.
pub open spec fn register_frame(
    node_id: Seq<char>,
    tools: Seq<String>,
    token: Seq<char>,
    user: Seq<char>,
    pwd: Seq<char>,
) -> Tree {
    Tree::Object(
        map![
            "type"@ => Tree::Str("register"@),
            "version"@ => Tree::Number(crate::outside::whole_number(PROTOCOL_VERSION)),
            "node_id"@ => Tree::Str(node_id),
            "tools"@ => Tree::Array(crate::json::strings_tree(tools)),
            "token"@ => Tree::Str(token),
            "user"@ => Tree::Str(user),
            "pwd"@ => Tree::Str(pwd),
        ],
    )
}

/// Builds the message that registers a node.
pub fn build_register_frame(
    node_id: &str,
    tools: &[String],
    token: &str,
    user: &str,
    pwd: &str,
) -> (frame: Json)
    ensures
        frame@ == register_frame(node_id@, tools@, token@, user@, pwd@),
{
    Json::object().with("type", Json::string("register")).with(
        "version",
        Json::integer(PROTOCOL_VERSION),
    ).with("node_id", Json::string(node_id)).with("tools", Json::strings(tools)).with(
        "token",
        Json::string(token),
    ).with("user", Json::string(user)).with("pwd", Json::string(pwd))
}

/// Writes the message that registers a node, as a line.
pub fn register_line(
    node_id: &str,
    tools: &[String],
    token: &str,
    user: &str,
    pwd: &str,
) -> (result: Result<String, String>)
    ensures
        match result {
            Ok(line) => {
                &&& line@ == crate::outside::json_text(
                    register_frame(node_id@, tools@, token@, user@, pwd@),
                ).push('\n')
                &&& crate::serve::is_one_line(line@)
            },
            Err(_) => false,
        },
{
    match build_register_frame(node_id, tools, token, user, pwd).to_text() {
        Ok(text) => {
            proof {
                crate::serve::law_one_line(text@);
            }
            Ok(to_line(text))
        },
        Err(reason) => Err(reason),
    }
}

/// Why a dispatcher did not register a node.
#[derive(Debug, PartialEq)]
pub enum RegistrationError {
    /// It closed the connection and did not answer.
    Closed,
    /// Its answer is no JSON document, for this reason.
    Malformed(String),
    /// It refused, for this reason.
    Rejected(String),
    /// Its answer is another message.
    Unexpected(Json),
}

/// What a `RegistrationError` says.
pub ghost enum Refusal {
    Closed,
    Malformed(Seq<char>),
    Rejected(Seq<char>),
    Unexpected(Tree),
}

impl View for RegistrationError {
    type V = Refusal;

    open spec fn view(&self) -> Refusal {
        match self {
            RegistrationError::Closed => Refusal::Closed,
            RegistrationError::Malformed(reason) => Refusal::Malformed(reason@),
            RegistrationError::Rejected(reason) => Refusal::Rejected(reason@),
            RegistrationError::Unexpected(response) => Refusal::Unexpected(response@),
        }
    }
}

/// What is said of a node that was not registered.
pub open spec fn refusal_text(refusal: Refusal) -> Seq<char> {
    match refusal {
        Refusal::Closed => "dispatcher closed the connection before responding to registration"@,
        Refusal::Malformed(reason) => reason,
        Refusal::Rejected(reason) => "dispatcher rejected registration: "@ + reason,
        Refusal::Unexpected(response) => "unexpected registration response: "@
            + crate::outside::json_display(response),
    }
}

impl RegistrationError {
    /// What to tell the user.
    pub fn message(&self) -> (text: String)
        ensures
            text@ == refusal_text(self@),
    {
        match self {
            RegistrationError::Closed => {
                "dispatcher closed the connection before responding to registration".to_owned()
            },
            RegistrationError::Malformed(reason) => reason.clone(),
            RegistrationError::Rejected(reason) => {
                let mut text = "dispatcher rejected registration: ".to_owned();
                text.append(reason.as_str());
                text
            },
            RegistrationError::Unexpected(response) => {
                let mut text = "unexpected registration response: ".to_owned();
                text.append(response.display().as_str());
                text
            },
        }
    }
}

/// What the dispatcher's answer means, once it was read as a document or was
/// found to be none.
pub open spec fn registration_outcome(parsed: Result<Tree, Seq<char>>) -> Result<(), Refusal> {
    match parsed {
        Err(reason) => Err(Refusal::Malformed(reason)),
        Ok(response) => match response.text_of("type"@) {
            Some(kind) => if kind == "registered"@ {
                Ok(())
            } else if kind == "error"@ {
                Err(
                    Refusal::Rejected(
                        match response.text_of("reason"@) {
                            Some(reason) => reason,
                            None => "unknown"@,
                        },
                    ),
                )
            } else {
                Err(Refusal::Unexpected(response))
            },
            None => Err(Refusal::Unexpected(response)),
        },
    }
}

/// What a `Result` of reading a document says.
pub open spec fn parsed_view(parsed: Result<Json, String>) -> Result<Tree, Seq<char>> {
    match parsed {
        Ok(json) => Ok(json@),
        Err(reason) => Err(reason@),
    }
}

/// What a `Result` of registering says.
pub open spec fn outcome_view(outcome: Result<(), RegistrationError>) -> Result<(), Refusal> {
    match outcome {
        Ok(()) => Ok(()),
        Err(e) => Err(e@),
    }
}

/// Decides what the dispatcher's answer means.
pub fn judge_response(parsed: Result<Json, String>) -> (outcome: Result<(), RegistrationError>)
    ensures
        outcome_view(outcome) == registration_outcome(parsed_view(parsed)),
{
    match parsed {
        Err(reason) => Err(RegistrationError::Malformed(reason)),
        Ok(response) => {
            let kind = match response.text_of("type") {
                Some(kind) => kind.to_owned(),
                None => {
                    return Err(RegistrationError::Unexpected(response));
                },
            };
            if same_text(kind.as_str(), "registered") {
                Ok(())
            } else if same_text(kind.as_str(), "error") {
                let reason = match response.text_of("reason") {
                    Some(reason) => reason,
                    None => "unknown",
                };
                Err(RegistrationError::Rejected(reason.to_owned()))
            } else {
                Err(RegistrationError::Unexpected(response))
            }
        },
    }
}

/// What a line from the dispatcher means; an empty one is the end of the
/// connection.
pub open spec fn answer_outcome(line: Seq<char>) -> Result<(), Refusal> {
    if line.len() == 0 {
        Err(Refusal::Closed)
    } else {
        registration_outcome(crate::outside::json_parse(crate::text::trimmed(line)))
    }
}

/// Reads the line that came from the dispatcher, which is empty where the
/// connection was closed.
pub fn read_answer(line: &str) -> (outcome: Result<(), RegistrationError>)
    ensures
        outcome_view(outcome) == answer_outcome(line@),
{
    if line.is_empty() {
        return Err(RegistrationError::Closed);
    }
    let parsed = Json::parse(trim(line).as_str());
    judge_response(parsed)
}

/// What is said of a node that was registered.
pub open spec fn registered_text(
    node_id: Seq<char>,
    user: Seq<char>,
    tools: Seq<Seq<char>>,
    dispatcher: Seq<char>,
) -> Seq<char> {
    "mcp-shell-server: registered as '"@ + node_id + "' (user: "@ + user + ", tools: "@
        + crate::text::joined(tools, ", "@) + ") with dispatcher "@ + dispatcher
}

/// Writes what is said of a node that was registered.
pub fn write_registered(node_id: &str, user: &str, tools: &[String], dispatcher: &str) -> (line:
    String)
    ensures
        line@ == registered_text(node_id@, user@, crate::text::texts(tools@), dispatcher@),
{
    let mut line = "mcp-shell-server: registered as '".to_owned();
    line.append(node_id);
    line.append("' (user: ");
    line.append(user);
    line.append(", tools: ");
    line.append(join(tools, ", ").as_str());
    line.append(") with dispatcher ");
    line.append(dispatcher);
    line
}

/// How the operating system watches over the connection to a dispatcher.
#[derive(Debug, Clone, Copy, PartialEq, Eq)]
pub struct Keepalive {
    /// Seconds of silence before it asks.
    pub time_secs: u64,
    /// Seconds between two questions.
    pub interval_secs: u64,
    /// Unanswered questions before it gives up, where that can be set.
    pub retries: Option<u32>,
}

/// How the connection is watched over. Windows does not let the number of
/// questions be set.
pub open spec fn keepalive_settings(windows: bool) -> Keepalive {
    Keepalive {
        time_secs: 20,
        interval_secs: 10,
        retries: if windows {
            None
        } else {
            Some(3)
        },
    }
}

/// How the connection is watched over.
pub fn keepalive(windows: bool) -> (settings: Keepalive)
    ensures
        settings == keepalive_settings(windows),
{
    let retries: Option<u32> = if windows {
        None
    } else {
        Some(3)
    };
    Keepalive { time_secs: 20, interval_secs: 10, retries }
}

/// What is said when the connection cannot be watched over.
pub open spec fn keepalive_failed_text(reason: Seq<char>) -> Seq<char> {
    "mcp-shell-server: failed to enable TCP keepalive: "@ + reason
}

/// A node, and the dispatcher that it registers with.
#[derive(Debug, PartialEq, Eq)]
pub struct Node {
    pub dispatcher: String,
    pub node_id: String,
    pub tools: Vec<String>,
    pub token: String,
    pub user: String,
    pub pwd: String,
}

impl Node {
    /// The message that registers the node.
    pub open spec fn frame(&self) -> Tree {
        register_frame(self.node_id@, self.tools@, self.token@, self.user@, self.pwd@)
    }

    /// What is said of the node once it is registered.
    pub open spec fn greeting(&self) -> Seq<char> {
        registered_text(
            self.node_id@,
            self.user@,
            crate::text::texts(self.tools@),
            self.dispatcher@,
        )
    }
}

/// How far an attempt to register is.
#[derive(Debug, PartialEq, Eq)]
pub enum AttemptPhase {
    Connecting,
    Watching,
    Sending,
    AwaitingAnswer,
    Serving,
    Ended,
}

/// What happened to an attempt.
#[derive(Debug, PartialEq, Eq)]
pub enum AttemptEvent {
    /// What was asked for is done.
    Done,
    /// It failed, for this reason.
    Failed(String),
    /// A line came from the dispatcher, empty where the connection was closed.
    Answered(String),
}

/// What an attempt needs next.
#[derive(Debug, PartialEq, Eq)]
pub enum AttemptAction {
    /// Connect to the dispatcher.
    Connect,
    /// Have the operating system watch over the connection.
    Watch(Keepalive),
    /// Print the warning where there is one, and send the line.
    Send { warning: Option<String>, line: String },
    /// Wait for a line.
    ReadAnswer,
    /// Print the line, and serve requests until the connection ends.
    Serve { line: String },
    /// The attempt is over.
    Finish(Result<(), String>),
}

/// The attempt is over, and it failed.
pub open spec fn attempt_fails(next: (AttemptPhase, AttemptAction), reason: Seq<char>) -> bool {
    &&& next.0 is Ended
    &&& next.1 matches AttemptAction::Finish(Err(text))
    &&& text@ == reason
}

impl AttemptPhase {
    /// Whether an event can happen now.
    pub open spec fn expects(&self, event: AttemptEvent) -> bool {
        match self {
            AttemptPhase::Connecting | AttemptPhase::Watching | AttemptPhase::Sending => event
                !is Answered,
            AttemptPhase::AwaitingAnswer => event !is Done,
            AttemptPhase::Serving => event is Done,
            AttemptPhase::Ended => false,
        }
    }

    /// How many events an attempt is from its end, at most.
    pub open spec fn events_left(&self) -> nat {
        match self {
            AttemptPhase::Connecting => 5,
            AttemptPhase::Watching => 4,
            AttemptPhase::Sending => 3,
            AttemptPhase::AwaitingAnswer => 2,
            AttemptPhase::Serving => 1,
            AttemptPhase::Ended => 0,
        }
    }

    /// The registration is sent, after a warning where there is one.
    pub open spec fn sends(
        next: (AttemptPhase, AttemptAction),
        node: Node,
        warning: Option<Seq<char>>,
    ) -> bool {
        &&& next.0 is Sending
        &&& next.1 matches AttemptAction::Send { warning: w, line }
        &&& line@ == crate::outside::json_text(node.frame()).push('\n')
        &&& crate::serve::is_one_line(line@)
        &&& match warning {
            Some(text) => w matches Some(w) && w@ == text,
            None => w is None,
        }
    }

    /// What an event leads to.
    pub open spec fn leads_to(
        &self,
        node: Node,
        windows: bool,
        event: AttemptEvent,
        next: (AttemptPhase, AttemptAction),
    ) -> bool {
        match (self, event) {
            (AttemptPhase::Watching, AttemptEvent::Failed(reason)) => Self::sends(
                next,
                node,
                Some(keepalive_failed_text(reason@)),
            ),
            (_, AttemptEvent::Failed(reason)) => attempt_fails(next, reason@),
            (AttemptPhase::Connecting, _) => next == (
                AttemptPhase::Watching,
                AttemptAction::Watch(keepalive_settings(windows)),
            ),
            (AttemptPhase::Watching, _) => Self::sends(next, node, None),
            (AttemptPhase::Sending, _) => next == (
                AttemptPhase::AwaitingAnswer,
                AttemptAction::ReadAnswer,
            ),
            (AttemptPhase::AwaitingAnswer, AttemptEvent::Answered(line)) => match answer_outcome(
                line@,
            ) {
                Ok(()) => {
                    &&& next.0 is Serving
                    &&& next.1 matches AttemptAction::Serve { line: greeting }
                    &&& greeting@ == node.greeting()
                },
                Err(refusal) => attempt_fails(next, refusal_text(refusal)),
            },
            (AttemptPhase::Serving, _) => next == (
                AttemptPhase::Ended,
                AttemptAction::Finish(Ok(())),
            ),
            _ => false,
        }
    }

    /// Begins an attempt, by connecting.
    pub fn begin() -> (start: (AttemptPhase, AttemptAction))
        ensures
            start == (AttemptPhase::Connecting, AttemptAction::Connect),
    {
        (AttemptPhase::Connecting, AttemptAction::Connect)
    }

    /// Goes on after an event. An attempt ends after a bounded number of events,
    /// and it succeeds exactly where it served: where the dispatcher registered
    /// the node.
    pub fn next(self, node: &Node, windows: bool, event: AttemptEvent) -> (next: (
        AttemptPhase,
        AttemptAction,
    ))
        requires
            self.expects(event),
        ensures
            self.leads_to(*node, windows, event, next),
            next.0.events_left() < self.events_left(),
            next.0 is Ended <==> next.1 is Finish,
            next.1 matches AttemptAction::Finish(result) ==> (result is Ok <==> self is Serving),
    {
        match (self, event) {
            (AttemptPhase::Watching, AttemptEvent::Failed(reason)) => {
                let mut warning = "mcp-shell-server: failed to enable TCP keepalive: ".to_owned();
                warning.append(reason.as_str());
                send_registration(node, Some(warning))
            },
            (_, AttemptEvent::Failed(reason)) => (
                AttemptPhase::Ended,
                AttemptAction::Finish(Err(reason)),
            ),
            (AttemptPhase::Connecting, _) => (
                AttemptPhase::Watching,
                AttemptAction::Watch(keepalive(windows)),
            ),
            (AttemptPhase::Watching, _) => send_registration(node, None),
            (AttemptPhase::Sending, _) => (
                AttemptPhase::AwaitingAnswer,
                AttemptAction::ReadAnswer,
            ),
            (AttemptPhase::AwaitingAnswer, AttemptEvent::Answered(line)) => {
                match read_answer(line.as_str()) {
                    Ok(()) => {
                        let line = write_registered(
                            node.node_id.as_str(),
                            node.user.as_str(),
                            node.tools.as_slice(),
                            node.dispatcher.as_str(),
                        );
                        (AttemptPhase::Serving, AttemptAction::Serve { line })
                    },
                    Err(e) => (AttemptPhase::Ended, AttemptAction::Finish(Err(e.message()))),
                }
            },
            _ => (AttemptPhase::Ended, AttemptAction::Finish(Ok(()))),
        }
    }
}

fn send_registration(node: &Node, warning: Option<String>) -> (next: (AttemptPhase, AttemptAction))
    ensures
        AttemptPhase::sends(
            next,
            *node,
            match warning {
                Some(text) => Some(text@),
                None => None,
            },
        ),
{
    let written = register_line(
        node.node_id.as_str(),
        node.tools.as_slice(),
        node.token.as_str(),
        node.user.as_str(),
        node.pwd.as_str(),
    );
    match written {
        Ok(line) => (AttemptPhase::Sending, AttemptAction::Send { warning, line }),
        Err(reason) => (AttemptPhase::Ended, AttemptAction::Finish(Err(reason))),
    }
}

/// The seconds to wait at a step of the backoff, which the last step caps.
pub open spec fn backoff_secs(step: nat) -> u64 {
    if step == 0 {
        1
    } else if step == 1 {
        2
    } else if step == 2 {
        5
    } else {
        10
    }
}

/// How many failures the attempts end with.
pub open spec fn streak(attempts: Seq<bool>) -> nat
    decreases attempts.len(),
{
    if attempts.len() == 0 || attempts.last() {
        0
    } else {
        streak(attempts.drop_last()) + 1
    }
}

/// The step of the backoff after some attempts: one for each failure since the
/// last connection, and one for that connection's end.
pub open spec fn backoff_step(attempts: Seq<bool>) -> nat {
    if attempts.contains(true) || streak(attempts) == 0 {
        streak(attempts)
    } else {
        (streak(attempts) - 1) as nat
    }
}

/// What is said of an attempt.
pub open spec fn attempt_text(result: Result<(), String>, failures: nat) -> Seq<char> {
    match result {
        Ok(()) => "mcp-shell-server: dispatcher connection closed, reconnecting"@,
        Err(reason) => "mcp-shell-server: registration failed ("@ + crate::text::decimal(failures)
            + "/"@ + crate::text::decimal(MAX_CONSECUTIVE_FAILURES as nat) + "): "@ + reason@,
    }
}

/// What is said when there is no further attempt.
pub open spec fn giving_up_text(dispatcher: Seq<char>) -> Seq<char> {
    "giving up after "@ + crate::text::decimal(MAX_CONSECUTIVE_FAILURES as nat)
        + " consecutive failed attempts to connect to dispatcher "@ + dispatcher
}

/// What to do after an attempt.
#[derive(Debug, PartialEq, Eq)]
pub enum RetryAction {
    /// Print the line, and try again after so many seconds.
    RetryAfter { line: String, seconds: u64 },
    /// Print the line, and return the error.
    GiveUp { line: String, error: String },
}

/// The attempts to stay connected with a dispatcher.
#[derive(Debug, PartialEq, Eq)]
pub struct Reconnect {
    backoff_idx: usize,
    consecutive_failures: u32,
}

impl Reconnect {
    /// This is the state after some attempts, the last of which did not make it
    /// give up.
    pub closed spec fn holds(&self, attempts: Seq<bool>) -> bool {
        &&& self.consecutive_failures < MAX_CONSECUTIVE_FAILURES
        &&& self.consecutive_failures == streak(attempts)
        &&& self.backoff_idx == (if attempts.contains(true) {
            streak(attempts) + 1
        } else {
            streak(attempts)
        })
    }

    /// This is the state after some attempts.
    pub open spec fn well_formed(&self) -> bool {
        exists|attempts: Seq<bool>| self.holds(attempts)
    }

    /// No attempt was made.
    pub fn new() -> (reconnect: Reconnect)
        ensures
            reconnect.well_formed(),
            reconnect.holds(Seq::empty()),
    {
        let reconnect = Reconnect { backoff_idx: 0, consecutive_failures: 0 };
        assert(reconnect.holds(Seq::empty()));
        reconnect
    }

    /// What follows an attempt that was made after others.
    pub open spec fn follows(
        attempts: Seq<bool>,
        result: Result<(), String>,
        dispatcher: Seq<char>,
        next: (Reconnect, RetryAction),
    ) -> bool {
        let all = attempts.push(result is Ok);
        if streak(all) >= MAX_CONSECUTIVE_FAILURES {
            &&& next.1 matches RetryAction::GiveUp { line, error }
            &&& line@ == attempt_text(result, streak(all))
            &&& error@ == giving_up_text(dispatcher)
        } else {
            &&& next.0.holds(all)
            &&& next.1 matches RetryAction::RetryAfter { line, seconds }
            &&& line@ == attempt_text(result, streak(all))
            &&& seconds == backoff_secs(backoff_step(all))
        }
    }

    /// Decides what follows an attempt. An attempt succeeds where the node was
    /// registered, however long the connection lasted.
    pub fn next(self, result: Result<(), String>, dispatcher: &str) -> (next: (
        Reconnect,
        RetryAction,
    ))
        requires
            self.well_formed(),
        ensures
            forall|attempts: Seq<bool>| #[trigger]
                self.holds(attempts) ==> Self::follows(attempts, result, dispatcher@, next),
            next.1 is RetryAfter ==> next.0.well_formed(),
    {
        let mut backoff_idx: usize = self.backoff_idx;
        let mut consecutive_failures: u32 = self.consecutive_failures;
        let line = match &result {
            Ok(()) => {
                consecutive_failures = 0;
                backoff_idx = 0;
                "mcp-shell-server: dispatcher connection closed, reconnecting".to_owned()
            },
            Err(reason) => {
                consecutive_failures = consecutive_failures + 1;
                write_failed_attempt(consecutive_failures, reason.as_str())
            },
        };
        proof {
            assert forall|attempts: Seq<bool>| #[trigger] self.holds(attempts) implies {
                let all = attempts.push(result is Ok);
                &&& consecutive_failures == streak(all)
                &&& backoff_idx == backoff_step(all)
                &&& all.contains(true) <==> (attempts.contains(true) || result is Ok)
            } by {
                let all = attempts.push(result is Ok);
                assert(all.drop_last() == attempts);
                lemma_push_contains(attempts, result is Ok);
            }
        }
        if consecutive_failures >= MAX_CONSECUTIVE_FAILURES {
            return (
                self,
                RetryAction::GiveUp { line, error: write_giving_up(dispatcher) },
            );
        }
        let seconds: u64 = backoff_delay(backoff_idx);
        let after = Reconnect { backoff_idx: backoff_idx + 1, consecutive_failures };
        proof {
            assert forall|attempts: Seq<bool>| #[trigger] self.holds(attempts) implies after.holds(
                attempts.push(result is Ok),
            ) by {
            }
            let attempts = choose|attempts: Seq<bool>| self.holds(attempts);
            assert(after.holds(attempts.push(result is Ok)));
        }
        (after, RetryAction::RetryAfter { line, seconds })
    }
}

proof fn lemma_push_contains(attempts: Seq<bool>, ok: bool)
    ensures
        attempts.push(ok).contains(true) <==> (attempts.contains(true) || ok),
{
    let all = attempts.push(ok);
    if attempts.contains(true) {
        let i = choose|i: int| 0 <= i < attempts.len() && attempts[i] == true;
        assert(all[i] == true);
    }
    if ok {
        assert(all[attempts.len() as int] == true);
    }
    if all.contains(true) {
        let i = choose|i: int| 0 <= i < all.len() && all[i] == true;
        if i < attempts.len() {
            assert(attempts[i] == true);
        }
    }
}

fn backoff_delay(step: usize) -> (seconds: u64)
    ensures
        seconds == backoff_secs(step as nat),
{
    if step == 0 {
        1
    } else if step == 1 {
        2
    } else if step == 2 {
        5
    } else {
        10
    }
}

fn write_failed_attempt(failures: u32, reason: &str) -> (line: String)
    ensures
        forall|result: Result<(), String>|
            (result matches Err(r) && r@ == reason@) ==> line@ == #[trigger] attempt_text(
                result,
                failures as nat,
            ),
{
    let mut line = "mcp-shell-server: registration failed (".to_owned();
    line.append(write_decimal(failures as u64).as_str());
    line.append("/");
    line.append(write_decimal(MAX_CONSECUTIVE_FAILURES as u64).as_str());
    line.append("): ");
    line.append(reason);
    line
}

fn write_giving_up(dispatcher: &str) -> (text: String)
    ensures
        text@ == giving_up_text(dispatcher@),
{
    let mut text = "giving up after ".to_owned();
    text.append(write_decimal(MAX_CONSECUTIVE_FAILURES as u64).as_str());
    text.append(" consecutive failed attempts to connect to dispatcher ");
    text.append(dispatcher);
    text
}

/// The attempts before the last failures of a streak, and those failures.
proof fn lemma_streak(attempts: Seq<bool>)
    ensures
        streak(attempts) <= attempts.len(),
        forall|i: int|
            attempts.len() - streak(attempts) <= i < attempts.len() ==> !#[trigger] attempts[i],
        streak(attempts) < attempts.len() ==> attempts[attempts.len() - streak(attempts) - 1],
    decreases attempts.len(),
{
    if attempts.len() > 0 && !attempts.last() {
        let before = attempts.drop_last();
        lemma_streak(before);
        assert forall|i: int|
            attempts.len() - streak(attempts) <= i < attempts.len() implies !#[trigger] attempts[i] by {
            if i < before.len() {
                assert(before[i] == attempts[i]);
            }
        }
    }
}

/// There is no further attempt exactly after `MAX_CONSECUTIVE_FAILURES`
/// failures one after the other. A connection in between, however short,
/// starts the count anew.
pub proof fn law_gives_up(attempts: Seq<bool>)
    ensures
        streak(attempts) >= MAX_CONSECUTIVE_FAILURES <==> attempts.len()
            >= MAX_CONSECUTIVE_FAILURES && forall|i: int|
            attempts.len() - MAX_CONSECUTIVE_FAILURES <= i < attempts.len()
                ==> !#[trigger] attempts[i],
{
    lemma_streak(attempts);
    if streak(attempts) < MAX_CONSECUTIVE_FAILURES && attempts.len() >= MAX_CONSECUTIVE_FAILURES {
        assert(attempts[attempts.len() - streak(attempts) - 1]);
    }
}

/// The wait grows from failure to failure, from one second after a connection
/// has ended, and it is never longer than ten.
pub proof fn law_backoff(attempts: Seq<bool>)
    ensures
        1 <= backoff_secs(backoff_step(attempts)) <= 10,
        backoff_secs(backoff_step(attempts.push(true))) == 1,
        backoff_secs(backoff_step(attempts)) <= backoff_secs(backoff_step(attempts.push(false))),
{
    lemma_push_contains(attempts, true);
    lemma_push_contains(attempts, false);
    assert(attempts.push(false).drop_last() == attempts);
}

/// The keys of the message that registers a node are different.
proof fn lemma_frame_keys()
    ensures
        "type"@ != "version"@,
        "type"@ != "node_id"@,
        "type"@ != "tools"@,
        "type"@ != "token"@,
        "type"@ != "user"@,
        "type"@ != "pwd"@,
        "version"@ != "node_id"@,
        "version"@ != "tools"@,
        "version"@ != "token"@,
        "version"@ != "user"@,
        "version"@ != "pwd"@,
        "node_id"@ != "tools"@,
        "node_id"@ != "token"@,
        "node_id"@ != "user"@,
        "node_id"@ != "pwd"@,
        "tools"@ != "token"@,
        "tools"@ != "user"@,
        "tools"@ != "pwd"@,
        "token"@ != "user"@,
        "token"@ != "pwd"@,
        "user"@ != "pwd"@,
{
    reveal_strlit("type");
    reveal_strlit("version");
    reveal_strlit("node_id");
    reveal_strlit("tools");
    reveal_strlit("token");
    reveal_strlit("user");
    reveal_strlit("pwd");
    assert("type"@[0] == 't' && "type"@.len() == 4);
    assert("version"@[0] == 'v');
    assert("node_id"@[0] == 'n');
    assert("tools"@[0] == 't' && "tools"@.len() == 5 && "tools"@[2] == 'o');
    assert("token"@[0] == 't' && "token"@.len() == 5 && "token"@[2] == 'k');
    assert("user"@[0] == 'u');
    assert("pwd"@[0] == 'p');
}

/// The message that registers a node says what kind of message it is and which
/// version of the protocol it follows, and holds the node's name, its token, its
/// user and its password as they are, and all of its tools, each in its place.
pub proof fn law_frame(
    node_id: Seq<char>,
    tools: Seq<String>,
    token: Seq<char>,
    user: Seq<char>,
    pwd: Seq<char>,
)
    ensures
        register_frame(node_id, tools, token, user, pwd) matches Tree::Object(members) && {
            &&& members.contains_key("type"@) && members["type"@] == Tree::Str("register"@)
            &&& members.contains_key("version"@) && members["version"@] == Tree::Number(
                crate::outside::whole_number(3),
            )
            &&& members.contains_key("node_id"@) && members["node_id"@] == Tree::Str(node_id)
            &&& members.contains_key("token"@) && members["token"@] == Tree::Str(token)
            &&& members.contains_key("user"@) && members["user"@] == Tree::Str(user)
            &&& members.contains_key("pwd"@) && members["pwd"@] == Tree::Str(pwd)
            &&& members.contains_key("tools"@)
            &&& members["tools"@] matches Tree::Array(items) && {
                &&& items.len() == tools.len()
                &&& forall|i: int|
                    0 <= i < tools.len() ==> #[trigger] items[i] == Tree::Str(tools[i]@)
            }
            &&& members.dom() == set![
                "type"@,
                "version"@,
                "node_id"@,
                "tools"@,
                "token"@,
                "user"@,
                "pwd"@,
            ]
        },
{
    lemma_frame_keys();
    crate::json::law_strings(tools);
    let members = register_frame(node_id, tools, token, user, pwd)->Object_0;
    assert(members.dom() =~= set![
        "type"@,
        "version"@,
        "node_id"@,
        "tools"@,
        "token"@,
        "user"@,
        "pwd"@,
    ]);
}

/// What is sent to register a node is the message that names it, as a line, after
/// the connection was made and whether or not it can be watched over. Where it
/// cannot, the reason is told.
pub proof fn law_registration_is_sent(
    node: Node,
    windows: bool,
    event: AttemptEvent,
    next: (AttemptPhase, AttemptAction),
)
    requires
        AttemptPhase::Watching.expects(event),
        AttemptPhase::Watching.leads_to(node, windows, event, next),
    ensures
        next.0 is Sending,
        next.1 matches AttemptAction::Send { warning, line } && {
            &&& line@.len() > 0 && line@.last() == '\n'
            &&& !line@.drop_last().contains('\n')
            &&& line@.drop_last() == crate::outside::json_text(
                register_frame(node.node_id@, node.tools@, node.token@, node.user@, node.pwd@),
            )
            &&& event is Done ==> warning is None
            &&& event matches AttemptEvent::Failed(reason) ==> (warning matches Some(text)
                && text@ == "mcp-shell-server: failed to enable TCP keepalive: "@ + reason@)
        },
{
    if let AttemptAction::Send { warning: _, line } = next.1 {
        assert(line@.drop_last() =~= crate::outside::json_text(node.frame()));
    }
}

/// An attempt connects, has the connection watched over, sends, waits for the
/// answer, and serves where it is registered. It fails with the reason where a
/// step fails.
pub proof fn law_attempt_steps(
    node: Node,
    windows: bool,
    phase: AttemptPhase,
    event: AttemptEvent,
    next: (AttemptPhase, AttemptAction),
)
    requires
        phase.expects(event),
        phase.leads_to(node, windows, event, next),
    ensures
        phase is Connecting && event is Done ==> {
            &&& next.0 is Watching
            &&& next.1 matches AttemptAction::Watch(settings) && {
                &&& settings.time_secs == 20
                &&& settings.interval_secs == 10
                &&& settings.retries == (if windows {
                    None::<u32>
                } else {
                    Some(3u32)
                })
            }
        },
        phase is Sending && event is Done ==> next.0 is AwaitingAnswer && next.1 is ReadAnswer,
        phase is Serving && event is Done ==> next.0 is Ended && next.1 == AttemptAction::Finish(
            Ok::<(), String>(()),
        ),
        !(phase is Watching) ==> (event matches AttemptEvent::Failed(reason) ==> {
            &&& next.0 is Ended
            &&& next.1 matches AttemptAction::Finish(Err(text)) && text@ == reason@
        }),
        event matches AttemptEvent::Answered(line) ==> match answer_outcome(line@) {
            Ok(()) => next.0 is Serving && (next.1 matches AttemptAction::Serve { line: told }
                && told@ == registered_text(
                node.node_id@,
                node.user@,
                crate::text::texts(node.tools@),
                node.dispatcher@,
            )),
            Err(refusal) => next.0 is Ended && (next.1 matches AttemptAction::Finish(Err(text))
                && text@ == refusal_text(refusal)),
        },
{
}

/// In every step but the last of an attempt the step can be done or fail, and the
/// dispatcher's answer, whatever it is, is taken where it is awaited; while the node
/// serves, the connection can end.
pub proof fn law_attempt_expects(reason: String, line: String)
    ensures
        AttemptPhase::Connecting.expects(AttemptEvent::Done),
        AttemptPhase::Connecting.expects(AttemptEvent::Failed(reason)),
        AttemptPhase::Watching.expects(AttemptEvent::Done),
        AttemptPhase::Watching.expects(AttemptEvent::Failed(reason)),
        AttemptPhase::Sending.expects(AttemptEvent::Done),
        AttemptPhase::Sending.expects(AttemptEvent::Failed(reason)),
        AttemptPhase::AwaitingAnswer.expects(AttemptEvent::Answered(line)),
        AttemptPhase::AwaitingAnswer.expects(AttemptEvent::Failed(reason)),
        AttemptPhase::Serving.expects(AttemptEvent::Done),
{
}

/// Only an object that says of itself that the node is registered registers it.
/// One that is an error tells the dispatcher's reason, which is unknown where it
/// is no text. Anything else that is a document is handed back whole, and what is
/// none is refused for the reason that it is none.
pub proof fn law_answer_means(response: Tree, reason: Seq<char>)
    ensures
        registration_outcome(Err(reason)) == Err::<(), Refusal>(Refusal::Malformed(reason)),
        registration_outcome(Ok(response)) is Ok <==> (response matches Tree::Object(members)
            && members.contains_key("type"@) && members["type"@] == Tree::Str("registered"@)),
        (response matches Tree::Object(members) && members.contains_key("type"@)
            && members["type"@] == Tree::Str("error"@)) ==> {
            let members = response->Object_0;
            let told = members.contains_key("reason"@) && members["reason"@] is Str;
            registration_outcome(Ok(response)) == Err::<(), Refusal>(
                Refusal::Rejected(
                    if told {
                        members["reason"@]->Str_0
                    } else {
                        "unknown"@
                    },
                ),
            )
        },
        !(response matches Tree::Object(members) && members.contains_key("type"@) && (
        members["type"@] == Tree::Str("registered"@) || members["type"@] == Tree::Str("error"@)))
            ==> registration_outcome(Ok(response)) == Err::<(), Refusal>(
            Refusal::Unexpected(response),
        ),
{
    reveal_strlit("registered");
    reveal_strlit("error");
    assert("registered"@.len() == 10);
    assert("error"@.len() == 5);
}

/// A connection that was closed is told from an answer; an answer counts without
/// the white space around it.
pub proof fn law_answer_line(line: Seq<char>)
    ensures
        answer_outcome(line) == Err::<(), Refusal>(Refusal::Closed) <==> line.len() == 0,
        line.len() > 0 ==> answer_outcome(line) == registration_outcome(
            crate::outside::json_parse(crate::text::trimmed(line)),
        ),
{
}

/// A refusal is told with the reason, or the answer, that came with it.
pub proof fn law_refusal_text(reason: Seq<char>, response: Tree)
    ensures
        refusal_text(Refusal::Closed)
            == "dispatcher closed the connection before responding to registration"@,
        refusal_text(Refusal::Malformed(reason)) == reason,
        refusal_text(Refusal::Rejected(reason)).take(34) == "dispatcher rejected registration: "@,
        refusal_text(Refusal::Rejected(reason)).skip(34) == reason,
        refusal_text(Refusal::Unexpected(response)).take(34)
            == "unexpected registration response: "@,
        refusal_text(Refusal::Unexpected(response)).skip(34) == crate::outside::json_display(
            response,
        ),
{
    reveal_strlit("dispatcher rejected registration: ");
    reveal_strlit("unexpected registration response: ");
    let rejected = refusal_text(Refusal::Rejected(reason));
    let unexpected = refusal_text(Refusal::Unexpected(response));
    assert(rejected.take(34) =~= "dispatcher rejected registration: "@);
    assert(rejected.skip(34) =~= reason);
    assert(unexpected.take(34) =~= "unexpected registration response: "@);
    assert(unexpected.skip(34) =~= crate::outside::json_display(response));
}

/// A refusal keeps what the error holds.
pub proof fn law_refusal_view(error: RegistrationError)
    ensures
        error is Closed <==> error@ is Closed,
        error matches RegistrationError::Malformed(reason) ==> error@ == Refusal::Malformed(
            reason@,
        ),
        error matches RegistrationError::Rejected(reason) ==> error@ == Refusal::Rejected(reason@),
        error matches RegistrationError::Unexpected(response) ==> error@ == Refusal::Unexpected(
            response@,
        ),
{
}

/// What a result says is what it holds.
pub proof fn law_outcome_views(
    parsed: Result<Json, String>,
    outcome: Result<(), RegistrationError>,
)
    ensures
        parsed matches Ok(json) ==> parsed_view(parsed) == Ok::<Tree, Seq<char>>(json@),
        parsed matches Err(reason) ==> parsed_view(parsed) == Err::<Tree, Seq<char>>(reason@),
        outcome is Ok <==> outcome_view(outcome) is Ok,
        outcome matches Err(e) ==> outcome_view(outcome) == Err::<(), Refusal>(e@),
{
}

/// The line on a node that was registered starts with its name, ends with its
/// dispatcher, and tells its user and its tools between.
pub proof fn law_registered_text(
    node_id: Seq<char>,
    user: Seq<char>,
    tools: Seq<Seq<char>>,
    dispatcher: Seq<char>,
)
    ensures
        ({
            let text = registered_text(node_id, user, tools, dispatcher);
            let listed = crate::text::joined(tools, ", "@);
            let a = 33 + node_id.len() as int;
            let b = a + 9 + user.len();
            let c = b + 9 + listed.len();
            &&& text.take(33) == "mcp-shell-server: registered as '"@
            &&& text.subrange(33, a) == node_id
            &&& text.subrange(a, a + 9) == "' (user: "@
            &&& text.subrange(a + 9, b) == user
            &&& text.subrange(b, b + 9) == ", tools: "@
            &&& text.subrange(b + 9, c) == listed
            &&& text.subrange(c, c + 18) == ") with dispatcher "@
            &&& text.skip(c + 18) == dispatcher
        }),
{
    reveal_strlit("mcp-shell-server: registered as '");
    reveal_strlit("' (user: ");
    reveal_strlit(", tools: ");
    reveal_strlit(") with dispatcher ");
    let text = registered_text(node_id, user, tools, dispatcher);
    let listed = crate::text::joined(tools, ", "@);
    let a = 33 + node_id.len() as int;
    let b = a + 9 + user.len();
    let c = b + 9 + listed.len();
    assert(text.take(33) =~= "mcp-shell-server: registered as '"@);
    assert(text.subrange(33, a) =~= node_id);
    assert(text.subrange(a, a + 9) =~= "' (user: "@);
    assert(text.subrange(a + 9, b) =~= user);
    assert(text.subrange(b, b + 9) =~= ", tools: "@);
    assert(text.subrange(b + 9, c) =~= listed);
    assert(text.subrange(c, c + 18) =~= ") with dispatcher "@);
    assert(text.skip(c + 18) =~= dispatcher);
}

/// So many failures, one after the other.
pub open spec fn failures(count: nat) -> Seq<bool> {
    Seq::new(count, |i: int| false)
}

proof fn lemma_streak_of_failures(before: Seq<bool>, count: nat)
    requires
        before.len() == 0 || before.last(),
    ensures
        streak(before + failures(count)) == count,
        (before + failures(count)).contains(true) <==> before.len() > 0,
    decreases count,
{
    let all = before + failures(count);
    if count == 0 {
        assert(all =~= before);
    } else {
        let less = (count - 1) as nat;
        assert(all.drop_last() =~= before + failures(less));
        assert(!all.last());
        lemma_streak_of_failures(before, less);
    }
    if before.len() > 0 {
        assert(all[before.len() - 1]);
    }
    if all.contains(true) && before.len() == 0 {
        let i = choose|i: int| 0 <= i < all.len() && all[i] == true;
        assert(failures(count)[i] == false);
    }
}

/// After a connection that ended, or before any was made, failures are counted
/// from one, each is told with its number and reason, and the fifth is the end.
/// Until then the next attempt knows of all before it, and the waits are one second after a connection, and two, five and then
/// ten seconds after the failures that follow it; before any connection the first
/// failure is followed by one second.
pub proof fn law_retries(
    before: Seq<bool>,
    count: nat,
    reason: String,
    dispatcher: Seq<char>,
    next: (Reconnect, RetryAction),
)
    requires
        before.len() == 0 || before.last(),
        Reconnect::follows(before + failures(count), Err(reason), dispatcher, next),
    ensures
        count + 1 >= 5 <==> next.1 is GiveUp,
        next.1 is RetryAfter ==> next.0.holds(before + failures(count + 1)),
        next.1 matches RetryAction::GiveUp { line, error } ==> {
            &&& line@ == "mcp-shell-server: registration failed ("@ + crate::text::decimal(
                count + 1,
            ) + "/5): "@ + reason@
            &&& error@
                == "giving up after 5 consecutive failed attempts to connect to dispatcher "@
                + dispatcher
        },
        next.1 matches RetryAction::RetryAfter { line, seconds } ==> {
            let step = if before.len() == 0 {
                count
            } else {
                count + 1
            };
            &&& line@ == "mcp-shell-server: registration failed ("@ + crate::text::decimal(
                count + 1,
            ) + "/5): "@ + reason@
            &&& step == 0 ==> seconds == 1
            &&& step == 1 ==> seconds == 2
            &&& step == 2 ==> seconds == 5
            &&& step >= 3 ==> seconds == 10
        },
{
    let all = (before + failures(count)).push(false);
    assert(all =~= before + failures(count + 1));
    lemma_streak_of_failures(before, count + 1);
    reveal_strlit("/");
    reveal_strlit("): ");
    reveal_strlit("/5): ");
    reveal_with_fuel(crate::text::decimal, 2);
    assert(crate::text::decimal(5) =~= seq!['5']);
    let told = "mcp-shell-server: registration failed ("@ + crate::text::decimal(count + 1);
    assert(told + "/"@ + crate::text::decimal(5) + "): "@ + reason@ =~= told + "/5): "@ + reason@);
    reveal_strlit("giving up after ");
    reveal_strlit(" consecutive failed attempts to connect to dispatcher ");
    reveal_strlit("giving up after 5 consecutive failed attempts to connect to dispatcher ");
    assert(giving_up_text(dispatcher)
        =~= "giving up after 5 consecutive failed attempts to connect to dispatcher "@ + dispatcher);
}

/// A connection that ended, after whatever attempts, is followed by another
/// attempt a second later.
pub proof fn law_reconnects(
    attempts: Seq<bool>,
    dispatcher: Seq<char>,
    next: (Reconnect, RetryAction),
)
    requires
        Reconnect::follows(attempts, Ok(()), dispatcher, next),
    ensures
        next.1 matches RetryAction::RetryAfter { line, seconds } && {
            &&& line@ == "mcp-shell-server: dispatcher connection closed, reconnecting"@
            &&& seconds == 1
        },
        next.0.holds(attempts.push(true)),
{
    lemma_push_contains(attempts, true);
}

} // verus!
