//! The loop that takes in requests, one on a line, and hands them on.

use vstd::prelude::*;
use vstd::string::*;

use crate::jobs::JobStore;
use crate::json::{Json, Tree};
use crate::rpc::{error_response, JsonRpcRequest, JsonRpcResponse, PARSE_ERROR};
use crate::text::is_blank;

verus! {

/// How many requests are handled at once, at most, however many come in before
/// any of them is done.
pub const MAX_IN_FLIGHT: usize = 16;

/// How many responses wait to be written.
pub const RESPONSE_QUEUE_SIZE: usize = 128;

/// How many requests are being handled.
#[derive(Debug, PartialEq, Eq)]
pub struct InFlight {
    count: usize,
}

impl InFlight {
    /// How many requests are being handled.
    pub closed spec fn count(&self) -> nat {
        self.count as nat
    }

    /// None is being handled.
    pub fn new() -> (in_flight: Self)
        ensures
            in_flight.count() == 0,
    {
        InFlight { count: 0 }
    }

    /// Whether none is being handled.
    pub fn is_empty(&self) -> (empty: bool)
        ensures
            empty <==> self.count() == 0,
    {
        self.count == 0
    }

    /// Takes a place for one more, where there is one.
    pub fn take(&mut self) -> (taken: bool)
        requires
            old(self).count() <= MAX_IN_FLIGHT,
        ensures
            taken <==> old(self).count() < MAX_IN_FLIGHT,
            final(self).count() == old(self).count() + (if taken {
                1int
            } else {
                0
            }),
            final(self).count() <= MAX_IN_FLIGHT,
    {
        if self.count < MAX_IN_FLIGHT {
            self.count = self.count + 1;
            true
        } else {
            false
        }
    }

    /// Gives the place of one back that is done.
    pub fn give_back(&mut self)
        requires
            old(self).count() > 0,
        ensures
            final(self).count() == old(self).count() - 1,
    {
        self.count = self.count - 1;
    }
}

/// A request that is to be answered.
#[derive(Debug, PartialEq)]
pub struct Call {
    pub id: Json,
    pub method: String,
    pub params: Option<Json>,
}

/// How far the loop is. While it drains, no line is read any more.
#[derive(Debug, PartialEq, Eq)]
pub enum ServePhase {
    Reading,
    Parsing,
    Answering,
    Starting { draining: bool },
    Draining,
    Flushing,
    Closed,
}

/// What happened.
#[derive(Debug, PartialEq)]
pub enum ServeEvent {
    /// A line came in.
    Line(String),
    /// No line will come in.
    InputEnded,
    /// A line is a request, or is none for this reason.
    Parsed(Result<JsonRpcRequest, String>),
    /// A response is on its way.
    Sent,
    /// A response cannot be written any more.
    SendFailed,
    /// The handling of a request has begun.
    Started,
    /// The handling of a request is done.
    Handled,
    /// All responses are written.
    Flushed,
}

/// What to do next.
#[derive(Debug, PartialEq)]
pub enum ServeAction {
    /// Wait for a line, or for a request to be handled, whichever comes first.
    ReadLine,
    /// Read a request from a line.
    Parse(String),
    /// Send a response.
    Send(JsonRpcResponse),
    /// Begin to handle a request.
    Start(Call),
    /// Wait for a request to be handled.
    AwaitHandled,
    /// Wait for all responses to be written.
    Flush,
    /// Return.
    Finish,
}

/// The loop that takes in requests. Requests for which there is no place yet
/// wait for one in the order in which they came.
#[derive(Debug, PartialEq)]
pub struct ServeLoop {
    pub phase: ServePhase,
    pub in_flight: InFlight,
    pub waiting: Vec<Call>,
}

/// The response to a line that is no request.
pub open spec fn parse_error(reason: Seq<char>) -> crate::rpc::Response {
    crate::rpc::failure(Tree::Null, PARSE_ERROR, "Parse error: "@ + reason)
}

/// Builds the response to a line that is no request.
pub fn parse_error_response(reason: &str) -> (response: JsonRpcResponse)
    ensures
        response@ == parse_error(reason@),
{
    let mut message = "Parse error: ".to_owned();
    message.append(reason);
    error_response(Json::Null, PARSE_ERROR, message.as_str())
}

/// The loop is in a phase, handles so many requests, has these waiting, and
/// asks for an action.
pub open spec fn comes_to(
    next: (ServeLoop, ServeAction),
    phase: ServePhase,
    count: int,
    waiting: Seq<Call>,
    action: ServeAction,
) -> bool {
    &&& next.0.phase == phase
    &&& next.0.in_flight.count() == count
    &&& next.0.waiting@ == waiting
    &&& next.1 == action
}

/// The loop reads no more lines, and waits for what it began.
pub open spec fn drains(next: (ServeLoop, ServeAction), count: int, waiting: Seq<Call>) -> bool {
    if count == 0 {
        comes_to(next, ServePhase::Flushing, count, waiting, ServeAction::Flush)
    } else {
        comes_to(next, ServePhase::Draining, count, waiting, ServeAction::AwaitHandled)
    }
}

/// The request that a line holds, where it is to be answered.
pub open spec fn call_of(request: JsonRpcRequest) -> Option<Call> {
    match request.id {
        Some(id) => Some(Call { id, method: request.method, params: request.params }),
        None => None,
    }
}

impl ServeLoop {
    /// There are no more requests in flight than are allowed, and none waits
    /// while there is a place for it.
    pub open spec fn well_formed(&self) -> bool {
        &&& self.in_flight.count() <= MAX_IN_FLIGHT
        &&& self.waiting@.len() > 0 ==> self.in_flight.count() == MAX_IN_FLIGHT
        &&& self.phase is Flushing || self.phase is Closed ==> self.in_flight.count() == 0
    }

    /// Whether an event can happen now.
    pub open spec fn expects(&self, event: ServeEvent) -> bool {
        match self.phase {
            ServePhase::Reading => event is Line || event is InputEnded || (event is Handled
                && self.in_flight.count() > 0),
            ServePhase::Parsing => event is Parsed,
            ServePhase::Answering => event is Sent || event is SendFailed,
            ServePhase::Starting { .. } => event is Started,
            ServePhase::Draining => event is Handled && self.in_flight.count() > 0,
            ServePhase::Flushing => event is Flushed,
            ServePhase::Closed => false,
        }
    }

    /// What an event leads to.
    pub open spec fn leads_to(&self, event: ServeEvent, next: (ServeLoop, ServeAction)) -> bool {
        let count = self.in_flight.count() as int;
        let waiting = self.waiting@;
        match event {
            ServeEvent::Line(line) => if crate::text::trimmed(line@).len() == 0 {
                comes_to(next, ServePhase::Reading, count, waiting, ServeAction::ReadLine)
            } else {
                comes_to(next, ServePhase::Parsing, count, waiting, ServeAction::Parse(line))
            },
            ServeEvent::Parsed(Err(reason)) => {
                &&& next.1 matches ServeAction::Send(response)
                &&& response@ == parse_error(reason@)
                &&& comes_to(next, ServePhase::Answering, count, waiting, next.1)
            },
            ServeEvent::Parsed(Ok(request)) => match call_of(request) {
                Some(call) => if count < MAX_IN_FLIGHT {
                    comes_to(
                        next,
                        ServePhase::Starting { draining: false },
                        count + 1,
                        waiting,
                        ServeAction::Start(call),
                    )
                } else {
                    comes_to(
                        next,
                        ServePhase::Reading,
                        count,
                        waiting.push(call),
                        ServeAction::ReadLine,
                    )
                },
                None => comes_to(next, ServePhase::Reading, count, waiting, ServeAction::ReadLine),
            },
            ServeEvent::Sent => comes_to(
                next,
                ServePhase::Reading,
                count,
                waiting,
                ServeAction::ReadLine,
            ),
            ServeEvent::Started => if self.phase == (ServePhase::Starting { draining: true }) {
                drains(next, count, waiting)
            } else {
                comes_to(next, ServePhase::Reading, count, waiting, ServeAction::ReadLine)
            },
            ServeEvent::SendFailed | ServeEvent::InputEnded => drains(next, count, waiting),
            ServeEvent::Handled => if waiting.len() > 0 {
                comes_to(
                    next,
                    ServePhase::Starting { draining: self.phase is Draining },
                    count,
                    waiting.skip(1),
                    ServeAction::Start(waiting[0]),
                )
            } else if self.phase is Draining {
                drains(next, count - 1, waiting)
            } else {
                comes_to(next, ServePhase::Reading, count - 1, waiting, ServeAction::ReadLine)
            },
            ServeEvent::Flushed => comes_to(
                next,
                ServePhase::Closed,
                count,
                waiting,
                ServeAction::Finish,
            ),
        }
    }

    /// Begins the loop, with a store of its own that holds no jobs: all the
    /// requests of the loop share it, and no other loop does.
    pub fn begin() -> (start: (ServeLoop, ServeAction, JobStore))
        ensures
            start.0.well_formed(),
            comes_to(
                (start.0, start.1),
                ServePhase::Reading,
                0,
                Seq::empty(),
                ServeAction::ReadLine,
            ),
            start.2.well_formed(),
            start.2@ == Map::<Seq<char>, crate::jobs::Job>::empty(),
    {
        let start = ServeLoop {
            phase: ServePhase::Reading,
            in_flight: InFlight::new(),
            waiting: Vec::new(),
        };
        (start, ServeAction::ReadLine, JobStore::new())
    }

    /// Goes on after an event. A blank line is passed over, a line that is no
    /// request is answered with an error, a notification is not answered, any
    /// other request is handled when there is a place for it, and the loop
    /// waits for all of them before it returns.
    pub fn next(self, event: ServeEvent) -> (next: (ServeLoop, ServeAction))
        requires
            self.well_formed(),
            self.expects(event),
        ensures
            next.0.well_formed(),
            self.leads_to(event, next),
            next.1 is Finish <==> self.phase is Flushing,
    {
        let ServeLoop { phase, in_flight, waiting } = self;
        let mut in_flight = in_flight;
        let mut waiting = waiting;
        let (phase, action) = match event {
            ServeEvent::Line(line) => if is_blank(line.as_str()) {
                (ServePhase::Reading, ServeAction::ReadLine)
            } else {
                (ServePhase::Parsing, ServeAction::Parse(line))
            },
            ServeEvent::Parsed(Err(reason)) => (
                ServePhase::Answering,
                ServeAction::Send(parse_error_response(reason.as_str())),
            ),
            ServeEvent::Parsed(Ok(request)) => {
                let JsonRpcRequest { jsonrpc: _, id, method, params } = request;
                match id {
                    Some(id) => {
                        let call = Call { id, method, params };
                        if in_flight.take() {
                            (ServePhase::Starting { draining: false }, ServeAction::Start(call))
                        } else {
                            waiting.push(call);
                            (ServePhase::Reading, ServeAction::ReadLine)
                        }
                    },
                    None => (ServePhase::Reading, ServeAction::ReadLine),
                }
            },
            ServeEvent::Sent => (ServePhase::Reading, ServeAction::ReadLine),
            ServeEvent::Started => match phase {
                ServePhase::Starting { draining: true } => drain(&in_flight),
                _ => (ServePhase::Reading, ServeAction::ReadLine),
            },
            ServeEvent::SendFailed => drain(&in_flight),
            ServeEvent::InputEnded => drain(&in_flight),
            ServeEvent::Handled => {
                let draining = matches!(phase, ServePhase::Draining);
                in_flight.give_back();
                if waiting.len() > 0 {
                    let call = waiting.remove(0);
                    assert(waiting@ =~= self.waiting@.skip(1));
                    in_flight.take();
                    (ServePhase::Starting { draining }, ServeAction::Start(call))
                } else if draining {
                    drain(&in_flight)
                } else {
                    (ServePhase::Reading, ServeAction::ReadLine)
                }
            },
            ServeEvent::Flushed => (ServePhase::Closed, ServeAction::Finish),
        };
        (ServeLoop { phase, in_flight, waiting }, action)
    }
}

/// Reads no more lines, and waits for what was begun.
fn drain(in_flight: &InFlight) -> (next: (ServePhase, ServeAction))
    ensures
        next == (if in_flight.count() == 0 {
            (ServePhase::Flushing, ServeAction::Flush)
        } else {
            (ServePhase::Draining, ServeAction::AwaitHandled)
        }),
{
    if in_flight.is_empty() {
        (ServePhase::Flushing, ServeAction::Flush)
    } else {
        (ServePhase::Draining, ServeAction::AwaitHandled)
    }
}

/// The requests that came in and are to be answered, in their order.
pub open spec fn came_in(events: Seq<ServeEvent>) -> Seq<Call>
    decreases events.len(),
{
    if events.len() == 0 {
        Seq::empty()
    } else {
        let before = came_in(events.drop_last());
        match events.last() {
            ServeEvent::Parsed(Ok(request)) => match request.id {
                Some(id) => before.push(
                    Call { id, method: request.method, params: request.params },
                ),
                None => before,
            },
            _ => before,
        }
    }
}

/// How many requests were handled.
pub open spec fn handled(events: Seq<ServeEvent>) -> nat
    decreases events.len(),
{
    if events.len() == 0 {
        0
    } else {
        handled(events.drop_last()) + (if events.last() is Handled {
            1nat
        } else {
            0
        })
    }
}

/// The requests whose handling was begun, in their order.
pub open spec fn begun(actions: Seq<ServeAction>) -> Seq<Call>
    decreases actions.len(),
{
    if actions.len() == 0 {
        Seq::empty()
    } else {
        let before = begun(actions.drop_last());
        match actions.last() {
            ServeAction::Start(call) => before.push(call),
            _ => before,
        }
    }
}

/// The loop went from state to state, as events came and it asked for actions.
pub open spec fn went_on(
    loops: Seq<ServeLoop>,
    events: Seq<ServeEvent>,
    actions: Seq<ServeAction>,
) -> bool {
    &&& loops.len() == events.len() + 1
    &&& actions.len() == events.len()
    &&& forall|i: int|
        0 <= i < events.len() ==> loops[i].expects(#[trigger] events[i]) && loops[i].leads_to(
            events[i],
            (loops[i + 1], actions[i]),
        )
}

/// Whatever comes in, there are never more than sixteen requests whose
/// handling has begun and is not done. Each request that is to be answered is
/// begun once, in the order in which they came, as soon as there is a place;
/// and when the loop returns, each has been begun and is done.
pub proof fn law_in_flight(
    loops: Seq<ServeLoop>,
    events: Seq<ServeEvent>,
    actions: Seq<ServeAction>,
)
    requires
        went_on(loops, events, actions),
        loops[0].phase is Reading,
        loops[0].in_flight.count() == 0,
        loops[0].waiting@ == Seq::<Call>::empty(),
    ensures
        loops.last().well_formed(),
        begun(actions).len() - handled(events) == loops.last().in_flight.count(),
        0 <= begun(actions).len() - handled(events) <= 16,
        begun(actions) + loops.last().waiting@ == came_in(events),
        begun(actions).len() - handled(events) < 16 ==> begun(actions) == came_in(events),
        loops.last().phase is Closed ==> begun(actions) == came_in(events) && handled(events)
            == came_in(events).len(),
    decreases events.len(),
{
    if events.len() == 0 {
        assert(begun(actions) + loops.last().waiting@ =~= came_in(events));
    } else {
        let n = events.len() - 1;
        let (before, told, asked) = (loops.drop_last(), events.drop_last(), actions.drop_last());
        assert forall|i: int| 0 <= i < told.len() implies before[i].expects(#[trigger] told[i])
            && before[i].leads_to(told[i], (before[i + 1], asked[i])) by {
            assert(loops[i].expects(events[i]));
        }
        law_in_flight(before, told, asked);
        assert(loops[n].expects(events[n]));
        assert(loops[n] == before.last());
        let (waited, waits) = (loops[n].waiting@, loops[n + 1].waiting@);
        if events[n] is Handled && waited.len() > 0 {
            assert(begun(actions) + waits =~= begun(asked) + waited);
        } else if waited.len() == 0 {
            assert(begun(asked) + waited =~= begun(asked));
            assert(begun(actions) + waits =~= came_in(events));
        } else {
            assert(begun(actions) + waits =~= came_in(events));
        }
    }
    let waits = loops.last().waiting@;
    if waits.len() == 0 {
        assert(begun(actions) + waits =~= begun(actions));
    }
}

/// A text that ends with a newline and holds no other.
pub open spec fn is_one_line(text: Seq<char>) -> bool {
    text.len() > 0 && text.last() == '\n' && !text.drop_last().contains('\n')
}

/// A message without a newline is one line once it is ended: the reader of the
/// stream finds the message, and nothing of the next one.
pub proof fn law_one_line(message: Seq<char>)
    requires
        !message.contains('\n'),
    ensures
        is_one_line(message.push('\n')),
        message.push('\n').drop_last() == message,
{
    assert(message.push('\n').drop_last() == message);
}

/// Ends a message with a newline, as each message on the wire is.
pub fn to_line(message: String) -> (line: String)
    ensures
        line@ == message@.push('\n'),
{
    let mut line = message;
    line.push('\n');
    line
}

/// A request that is to be answered is handed on with its own id, method and
/// parameters, whatever they are: at once where there is a place, and otherwise
/// behind those that wait. A notification is passed over.
pub proof fn law_request_is_handed_on(
    serving: ServeLoop,
    request: JsonRpcRequest,
    next: (ServeLoop, ServeAction),
)
    requires
        serving.leads_to(ServeEvent::Parsed(Ok(request)), next),
    ensures
        request.id is Some && serving.in_flight.count() < 16 ==> {
            &&& next.1 matches ServeAction::Start(call)
            &&& request.id == Some(call.id)
            &&& call.method == request.method
            &&& call.params == request.params
            &&& next.0.waiting@ == serving.waiting@
            &&& next.0.in_flight.count() == serving.in_flight.count() + 1
        },
        request.id is Some && serving.in_flight.count() >= 16 ==> {
            &&& next.1 is ReadLine
            &&& next.0.waiting@.len() == serving.waiting@.len() + 1
            &&& next.0.waiting@.drop_last() == serving.waiting@
            &&& request.id == Some(next.0.waiting@.last().id)
            &&& next.0.waiting@.last().method == request.method
            &&& next.0.waiting@.last().params == request.params
            &&& next.0.in_flight.count() == serving.in_flight.count()
        },
        request.id is None ==> {
            &&& next.1 is ReadLine
            &&& next.0.phase is Reading
            &&& next.0.waiting@ == serving.waiting@
            &&& next.0.in_flight.count() == serving.in_flight.count()
        },
{
    if request.id is Some && serving.in_flight.count() >= 16 {
        assert(next.0.waiting@.drop_last() =~= serving.waiting@);
    }
}

/// A line whose request calls `bash_exec` with a command leads to a run of that
/// command, for the request's id, whatever jobs there are.
pub proof fn law_command_of_a_line_is_run(
    serving: ServeLoop,
    request: JsonRpcRequest,
    id: Json,
    command: Seq<char>,
    jobs: Map<Seq<char>, crate::jobs::Job>,
    next: (ServeLoop, ServeAction),
)
    requires
        serving.leads_to(ServeEvent::Parsed(Ok(request)), next),
        next.1 is Start,
        request.id == Some(id),
        request.method@ == "tools/call"@,
        request.params matches Some(params) && crate::rpc::has_name(
            Some(params@),
            "bash_exec"@,
        ) && crate::rpc::has_argument(Some(params@), "command"@, command),
        command.len() > 0,
    ensures
        next.1 matches ServeAction::Start(call) && crate::rpc::dispatched(
            call.id@,
            call.method@,
            crate::rpc::tree_of(call.params),
            jobs,
        ) == (crate::rpc::Doing::Run { id: id@, command }, jobs),
{
    law_request_is_handed_on(serving, request, next);
    crate::rpc::law_bash_exec(id@, crate::rpc::tree_of(request.params), command, jobs);
}

/// A line is read as a request as it came, unless it is blank.
pub proof fn law_line_is_parsed(
    serving: ServeLoop,
    line: String,
    next: (ServeLoop, ServeAction),
)
    requires
        serving.leads_to(ServeEvent::Line(line), next),
    ensures
        next.1 is ReadLine || next.1 == ServeAction::Parse(line),
        next.1 is ReadLine <==> forall|i: int|
            0 <= i < line@.len() ==> crate::text::is_white_space(#[trigger] line@[i]),
        next.1 is ReadLine ==> next.0.phase is Reading,
        next.1 is Parse ==> next.0.phase is Parsing,
        next.0.waiting@ == serving.waiting@,
        next.0.in_flight.count() == serving.in_flight.count(),
{
    crate::text::law_blank(line@);
}

/// A line that is no request is answered with an error that says why, under no
/// id; and what was begun goes on.
pub proof fn law_bad_line_is_answered(
    serving: ServeLoop,
    reason: String,
    next: (ServeLoop, ServeAction),
)
    requires
        serving.leads_to(ServeEvent::Parsed(Err(reason)), next),
    ensures
        next.0.phase is Answering,
        next.1 matches ServeAction::Send(response) && crate::rpc::refuses(
            response@,
            Tree::Null,
            -32700,
            "Parse error: "@ + reason@,
        ),
        next.0.waiting@ == serving.waiting@,
        next.0.in_flight.count() == serving.in_flight.count(),
{
    crate::rpc::law_refuses(Tree::Null, PARSE_ERROR, "Parse error: "@ + reason@);
}

/// When a request is handled, the one that waits longest takes its place, and the
/// others go on waiting in their order. Where none waits, the place is free.
pub proof fn law_place_is_passed_on(serving: ServeLoop, next: (ServeLoop, ServeAction))
    requires
        serving.leads_to(ServeEvent::Handled, next),
        serving.in_flight.count() > 0,
    ensures
        serving.waiting@.len() > 0 ==> {
            &&& next.1 == ServeAction::Start(serving.waiting@[0])
            &&& next.0.waiting@.len() == serving.waiting@.len() - 1
            &&& forall|i: int|
                0 <= i < next.0.waiting@.len() ==> #[trigger] next.0.waiting@[i]
                    == serving.waiting@[i + 1]
            &&& next.0.in_flight.count() == serving.in_flight.count()
        },
        serving.waiting@.len() == 0 ==> {
            &&& !(next.1 is Start)
            &&& next.0.waiting@.len() == 0
            &&& next.0.in_flight.count() == serving.in_flight.count() - 1
        },
{
}

/// The loop takes whatever can happen: any line and the end of the input where it
/// reads, any request and any text that is none, and the end of a request's
/// handling wherever it waits while one is being handled.
pub proof fn law_loop_expects(
    serving: ServeLoop,
    line: String,
    parsed: Result<JsonRpcRequest, String>,
)
    ensures
        serving.phase is Reading ==> serving.expects(ServeEvent::Line(line)) && serving.expects(
            ServeEvent::InputEnded,
        ),
        serving.phase is Parsing ==> serving.expects(ServeEvent::Parsed(parsed)),
        serving.phase is Answering ==> serving.expects(ServeEvent::Sent) && serving.expects(
            ServeEvent::SendFailed,
        ),
        serving.phase is Starting ==> serving.expects(ServeEvent::Started),
        (serving.phase is Reading || serving.phase is Draining) && serving.in_flight.count() > 0
            ==> serving.expects(ServeEvent::Handled),
        serving.phase is Flushing ==> serving.expects(ServeEvent::Flushed),
{
}

/// Lines are read until the input ends or nothing can be written any more, and
/// then none; the loop then waits for what it began, and returns when there is
/// nothing left to wait for.
pub proof fn law_reads_then_drains(
    serving: ServeLoop,
    event: ServeEvent,
    next: (ServeLoop, ServeAction),
)
    requires
        serving.well_formed(),
        serving.expects(event),
        serving.leads_to(event, next),
    ensures
        event is InputEnded || event is SendFailed || serving.phase is Draining || serving.phase == (
        ServePhase::Starting { draining: true }) || serving.phase is Flushing ==> {
            &&& !(next.1 is ReadLine)
            &&& next.1 is AwaitHandled || next.1 is Start || next.1 is Flush || next.1 is Finish
            &&& next.1 is AwaitHandled <==> next.0.phase is Draining
            &&& next.1 is Start ==> next.0.phase == (ServePhase::Starting { draining: true })
            &&& next.1 is Flush <==> next.0.phase is Flushing
            &&& next.1 is Flush ==> next.0.in_flight.count() == 0 && next.0.waiting@.len() == 0
            &&& next.1 is AwaitHandled ==> next.0.in_flight.count() > 0
            &&& next.1 is Finish <==> event is Flushed
        },
        event is Sent || serving.phase == (ServePhase::Starting { draining: false }) || (
        serving.phase is Reading && event is Handled && serving.waiting@.len() == 0) ==> {
            &&& next.1 is ReadLine
            &&& next.0.phase is Reading
        },
        serving.phase is Reading && event is Handled && serving.waiting@.len() > 0
            ==> next.0.phase == (ServePhase::Starting { draining: false }),
{
}

} // verus!
