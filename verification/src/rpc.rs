//! JSON-RPC requests and what they are answered.

use vstd::prelude::*;
use vstd::string::*;

use crate::catalog::{initialize_json, tool_list_json};
use crate::command::Outcome;
use crate::jobs::{JobStatus, JobStore};
use crate::json::{Json, Tree};
use crate::text::{same_text, write_signed_decimal};

verus! {

/// A line is no request.
pub const PARSE_ERROR: i64 = -32700;

/// There is no such method.
pub const METHOD_NOT_FOUND: i64 = -32601;

/// A tool was called with arguments that it cannot use.
pub const INVALID_PARAMS: i64 = -32602;

/// A tool could not do its work.
pub const SERVER_ERROR: i64 = -32000;

/// A request, or a notification where there is no id.
#[derive(Debug, PartialEq)]
pub struct JsonRpcRequest {
    pub jsonrpc: String,
    pub id: Option<Json>,
    pub method: String,
    pub params: Option<Json>,
}

/// A response.
#[derive(Debug, PartialEq)]
pub struct JsonRpcResponse {
    pub jsonrpc: String,
    pub id: Option<Json>,
    pub result: Option<Json>,
    pub error: Option<Json>,
}

/// What a `JsonRpcResponse` says.
pub ghost struct Response {
    pub jsonrpc: Seq<char>,
    pub id: Option<Tree>,
    pub result: Option<Tree>,
    pub error: Option<Tree>,
}

/// A document that may be missing.
pub open spec fn tree_of(json: Option<Json>) -> Option<Tree> {
    match json {
        Some(json) => Some(json@),
        None => None,
    }
}

impl View for JsonRpcResponse {
    type V = Response;

    open spec fn view(&self) -> Response {
        Response {
            jsonrpc: self.jsonrpc@,
            id: tree_of(self.id),
            result: tree_of(self.result),
            error: tree_of(self.error),
        }
    }
}

/// The response to a request that was met.
pub open spec fn success(id: Tree, result: Tree) -> Response {
    Response { jsonrpc: "2.0"@, id: Some(id), result: Some(result), error: None }
}

/// The response to a request that was not met.
pub open spec fn failure(id: Tree, code: i64, message: Seq<char>) -> Response {
    Response {
        jsonrpc: "2.0"@,
        id: Some(id),
        result: None,
        error: Some(
            Tree::Object(
                map![
                    "code"@ => Tree::Number(crate::outside::whole_number(code)),
                    "message"@ => Tree::Str(message),
                ],
            ),
        ),
    }
}

/// The response to a request that was met.
fn success_response(id: Json, result: Json) -> (response: JsonRpcResponse)
    ensures
        response@ == success(id@, result@),
{
    JsonRpcResponse { jsonrpc: "2.0".to_owned(), id: Some(id), result: Some(result), error: None }
}

/// The response to a request that was not met.
pub fn error_response(id: Json, code: i64, message: &str) -> (response: JsonRpcResponse)
    ensures
        response@ == failure(id@, code, message@),
{
    let error = Json::object().with("code", Json::integer(code)).with(
        "message",
        Json::string(message),
    );
    JsonRpcResponse { jsonrpc: "2.0".to_owned(), id: Some(id), result: None, error: Some(error) }
}

/// The result of a tool: a text, and whether the tool failed.
pub open spec fn tool_result(text: Seq<char>, is_error: bool) -> Tree {
    Tree::Object(
        map![
            "content"@ => Tree::Array(
                seq![
                    Tree::Object(
                        map![
                            "type"@ => Tree::Str("text"@),
                            "text"@ => Tree::Str(text),
                        ],
                    ),
                ],
            ),
            "isError"@ => Tree::Bool(is_error),
        ],
    )
}

fn tool_response(id: Json, text: &str, is_error: bool) -> (response: JsonRpcResponse)
    ensures
        response@ == success(id@, tool_result(text@, is_error)),
{
    let content = Json::object().with("type", Json::string("text")).with(
        "text",
        Json::string(text),
    );
    let result = Json::object().with("content", Json::array().and(content)).with(
        "isError",
        Json::Bool(is_error),
    );
    success_response(id, result)
}

/// What is done about a request.
#[derive(Debug, PartialEq)]
pub enum Reaction {
    /// Respond at once.
    Respond(JsonRpcResponse),
    /// Respond at once, and run the command in the background for the job.
    StartJob { job_id: String, command: String, response: JsonRpcResponse },
    /// Run the command, and respond with what comes of it.
    Run { id: Json, command: String },
}

/// What a `Reaction` says.
pub ghost enum Doing {
    Respond(Response),
    StartJob { job_id: Seq<char>, command: Seq<char>, response: Response },
    Run { id: Tree, command: Seq<char> },
}

impl View for Reaction {
    type V = Doing;

    open spec fn view(&self) -> Doing {
        match self {
            Reaction::Respond(response) => Doing::Respond(response@),
            Reaction::StartJob { job_id, command, response } => Doing::StartJob {
                job_id: job_id@,
                command: command@,
                response: response@,
            },
            Reaction::Run { id, command } => Doing::Run { id: id@, command: command@ },
        }
    }
}

/// The text of a member that is a string and not empty.
pub open spec fn argument(arguments: Tree, key: Seq<char>) -> Option<Seq<char>> {
    match arguments.text_of(key) {
        Some(text) if text.len() > 0 => Some(text),
        _ => None,
    }
}

/// The text of a member that is a string and not empty.
fn argument_of<'a>(arguments: &'a Json, key: &str) -> (text: Option<&'a str>)
    ensures
        match text {
            Some(text) => argument(arguments@, key@) == Some(text@),
            None => argument(arguments@, key@) is None,
        },
{
    match arguments.text_of(key) {
        Some(text) => if text.is_empty() {
            None
        } else {
            Some(text)
        },
        None => None,
    }
}

/// The name of the tool that a call asks for, empty where there is none.
pub open spec fn called_tool(params: Option<Tree>) -> Seq<char> {
    match params {
        Some(params) => match params.text_of("name"@) {
            Some(name) => name,
            None => Seq::empty(),
        },
        None => Seq::empty(),
    }
}

/// The arguments of a tool call, null where there are none.
pub open spec fn call_arguments(params: Option<Tree>) -> Tree {
    match params {
        Some(params) => match params.member("arguments"@) {
            Some(arguments) => arguments,
            None => Tree::Null,
        },
        None => Tree::Null,
    }
}

/// The text of the response that names a new job.
pub open spec fn started_text(job_id: Seq<char>) -> Seq<char> {
    "job_id="@ + job_id + "\nstate=running"@
}

/// What is done about the call of a tool, and the jobs after it.
pub open spec fn tool_call(
    id: Tree,
    params: Option<Tree>,
    jobs: Map<Seq<char>, crate::jobs::Job>,
) -> (Doing, Map<Seq<char>, crate::jobs::Job>) {
    let name = called_tool(params);
    let arguments = call_arguments(params);
    if name == "bash_job_status"@ {
        match argument(arguments, "job_id"@) {
            None => (Doing::Respond(failure(id, INVALID_PARAMS, "Missing job_id argument"@)), jobs),
            Some(job_id) => if jobs.contains_key(job_id) {
                (
                    Doing::Respond(
                        success(id, tool_result(crate::jobs::job_report(jobs[job_id]), false)),
                    ),
                    jobs,
                )
            } else {
                (Doing::Respond(failure(id, INVALID_PARAMS, "Unknown job_id"@)), jobs)
            },
        }
    } else {
        match argument(arguments, "command"@) {
            None => (Doing::Respond(failure(id, INVALID_PARAMS, "Missing command argument"@)), jobs),
            Some(command) => if name == "bash_exec_async"@ {
                start_job(id, command, jobs)
            } else if name == "bash_exec"@ {
                (Doing::Run { id, command }, jobs)
            } else {
                (Doing::Respond(failure(id, INVALID_PARAMS, "Unknown tool"@)), jobs)
            },
        }
    }
}

/// What is done to run a command in the background, and the jobs after it.
pub open spec fn start_job(
    id: Tree,
    command: Seq<char>,
    jobs: Map<Seq<char>, crate::jobs::Job>,
) -> (Doing, Map<Seq<char>, crate::jobs::Job>) {
    if jobs.len() >= crate::jobs::MAX_JOBS {
        (Doing::Respond(failure(id, SERVER_ERROR, "Too many background jobs"@)), jobs)
    } else {
        let job_id = crate::jobs::job_id(jobs.len() + 1);
        (
            Doing::StartJob {
                job_id,
                command,
                response: success(id, tool_result(started_text(job_id), false)),
            },
            jobs.insert(job_id, crate::jobs::running_job()),
        )
    }
}

/// Decides about the call of a tool.
pub fn handle_tool_call(id: Json, params: Option<Json>, jobs: &mut JobStore) -> (reaction: Reaction)
    requires
        old(jobs).well_formed(),
    ensures
        final(jobs).well_formed(),
        (reaction@, final(jobs)@) == tool_call(id@, tree_of(params), old(jobs)@),
{
    let params = match params {
        Some(params) => params,
        None => Json::Null,
    };
    let name = match params.text_of("name") {
        Some(name) => name,
        None => "",
    };
    let nothing = Json::Null;
    let arguments = match params.get("arguments") {
        Some(arguments) => arguments,
        None => &nothing,
    };
    proof {
        reveal_strlit("");
        assert(""@ =~= Seq::<char>::empty());
    }
    if same_text(name, "bash_job_status") {
        return match argument_of(arguments, "job_id") {
            None => Reaction::Respond(
                error_response(id, INVALID_PARAMS, "Missing job_id argument"),
            ),
            Some(job_id) => match jobs.get(job_id) {
                Some(job) => Reaction::Respond(tool_response(id, job.report().as_str(), false)),
                None => Reaction::Respond(error_response(id, INVALID_PARAMS, "Unknown job_id")),
            },
        };
    }
    match argument_of(arguments, "command") {
        None => Reaction::Respond(error_response(id, INVALID_PARAMS, "Missing command argument")),
        Some(command) => if same_text(name, "bash_exec_async") {
            match jobs.create() {
                Some((job_id, _)) => {
                    let mut text = "job_id=".to_owned();
                    text.append(job_id.as_str());
                    text.append("\nstate=running");
                    let response = tool_response(id, text.as_str(), false);
                    Reaction::StartJob { job_id, command: command.to_owned(), response }
                },
                None => Reaction::Respond(
                    error_response(id, SERVER_ERROR, "Too many background jobs"),
                ),
            }
        } else if same_text(name, "bash_exec") {
            Reaction::Run { id, command: command.to_owned() }
        } else {
            Reaction::Respond(error_response(id, INVALID_PARAMS, "Unknown tool"))
        },
    }
}

/// What is done about a request, and the jobs after it.
pub open spec fn dispatched(
    id: Tree,
    method: Seq<char>,
    params: Option<Tree>,
    jobs: Map<Seq<char>, crate::jobs::Job>,
) -> (Doing, Map<Seq<char>, crate::jobs::Job>) {
    if method == "initialize"@ {
        (Doing::Respond(success(id, crate::catalog::initialize_result())), jobs)
    } else if method == "tools/list"@ {
        (Doing::Respond(success(id, crate::catalog::tool_list_result())), jobs)
    } else if method == "tools/call"@ {
        tool_call(id, params, jobs)
    } else {
        (Doing::Respond(failure(id, METHOD_NOT_FOUND, "Method not found"@)), jobs)
    }
}

/// Decides about a request.
pub fn dispatch(
    req_id: Json,
    method: &str,
    params: Option<Json>,
    jobs: &mut JobStore,
) -> (reaction: Reaction)
    requires
        old(jobs).well_formed(),
    ensures
        final(jobs).well_formed(),
        (reaction@, final(jobs)@) == dispatched(req_id@, method@, tree_of(params), old(jobs)@),
{
    if same_text(method, "initialize") {
        Reaction::Respond(success_response(req_id, initialize_json()))
    } else if same_text(method, "tools/list") {
        Reaction::Respond(success_response(req_id, tool_list_json()))
    } else if same_text(method, "tools/call") {
        handle_tool_call(req_id, params, jobs)
    } else {
        Reaction::Respond(error_response(req_id, METHOD_NOT_FOUND, "Method not found"))
    }
}

/// The text of the response for a command that ran to its end.
pub open spec fn finished_text(exit_code: i32, stdout: Seq<char>, stderr: Seq<char>) -> Seq<char> {
    "Exit Code: "@ + crate::text::signed_decimal(exit_code as int) + "\nSTDOUT:\n"@ + stdout
        + "\nSTDERR:\n"@ + stderr
}

/// The response for a command that has ended.
pub open spec fn command_response(id: Tree, ending: crate::command::Ending) -> Response {
    match ending {
        crate::command::Ending::Finished { exit_code, success: ok, stdout, stderr } => success(
            id,
            tool_result(finished_text(exit_code, stdout, stderr), !ok),
        ),
        crate::command::Ending::Failed(message) => failure(id, SERVER_ERROR, message),
    }
}

/// Builds the response for a command that has ended.
pub fn respond_to_command(id: Json, outcome: Outcome) -> (response: JsonRpcResponse)
    ensures
        response@ == command_response(id@, outcome@),
{
    match outcome {
        Outcome::Finished { exit_code, success: ok, stdout, stderr } => {
            let mut text = "Exit Code: ".to_owned();
            text.append(write_signed_decimal(exit_code).as_str());
            text.append("\nSTDOUT:\n");
            text.append(stdout.as_str());
            text.append("\nSTDERR:\n");
            text.append(stderr.as_str());
            tool_response(id, text.as_str(), !ok)
        },
        Outcome::Failed(message) => error_response(id, SERVER_ERROR, message.as_str()),
    }
}

/// The job that a command's ending makes of a running one.
pub open spec fn job_after(ending: crate::command::Ending) -> crate::jobs::Job {
    match ending {
        crate::command::Ending::Finished {
            exit_code,
            success: _,
            stdout,
            stderr,
        } => crate::jobs::completed_job(exit_code, stdout, stderr),
        crate::command::Ending::Failed(message) => crate::jobs::failed_job(message),
    }
}

/// The jobs after it is recorded how the command of a job ended.
pub open spec fn recorded(
    jobs: Map<Seq<char>, crate::jobs::Job>,
    job_id: Seq<char>,
    ending: crate::command::Ending,
) -> Map<Seq<char>, crate::jobs::Job> {
    if jobs.contains_key(job_id) {
        jobs.insert(job_id, job_after(ending))
    } else {
        jobs
    }
}

/// Records how the command of a background job ended.
pub fn record_outcome(jobs: &mut JobStore, job_id: &str, outcome: Outcome)
    requires
        old(jobs).well_formed(),
    ensures
        final(jobs).well_formed(),
        final(jobs)@ == recorded(old(jobs)@, job_id@, outcome@),
{
    jobs.update(job_id, JobStatus::ended(outcome.into_result()));
}

/// The response is one to the request with this id: it names the id, and it
/// holds a result or an error, and not both.
pub open spec fn answers(response: Response, id: Tree) -> bool {
    &&& response.jsonrpc == "2.0"@
    &&& response.id == Some(id)
    &&& response.result is Some <==> response.error is None
}

/// Every request is answered under its own id, whatever it asks for, and
/// however the command ends that it asks for.
pub proof fn law_answered(
    id: Tree,
    method: Seq<char>,
    params: Option<Tree>,
    jobs: Map<Seq<char>, crate::jobs::Job>,
)
    ensures
        match dispatched(id, method, params, jobs).0 {
            Doing::Respond(response) => answers(response, id),
            Doing::StartJob { job_id: _, command: _, response } => answers(response, id),
            Doing::Run { id: own, command: _ } => own == id && forall|
                ending: crate::command::Ending,
            | answers(#[trigger] command_response(own, ending), id),
        },
{
}

/// No command runs that a client did not ask for: a request that leads to one
/// calls a tool that runs commands, and names the command.
pub proof fn law_runs_what_was_asked(
    id: Tree,
    method: Seq<char>,
    params: Option<Tree>,
    jobs: Map<Seq<char>, crate::jobs::Job>,
)
    ensures
        match dispatched(id, method, params, jobs).0 {
            Doing::Respond(_) => true,
            Doing::StartJob { job_id: _, command, response: _ } => method == "tools/call"@
                && called_tool(params) == "bash_exec_async"@ && argument(
                call_arguments(params),
                "command"@,
            ) == Some(command) && command.len() > 0,
            Doing::Run { id: _, command } => method == "tools/call"@ && called_tool(params)
                == "bash_exec"@ && argument(call_arguments(params), "command"@) == Some(command)
                && command.len() > 0,
        },
{
}

/// Jobs are numbered from one without a gap, and within their limit.
pub open spec fn numbered(jobs: Map<Seq<char>, crate::jobs::Job>) -> bool {
    &&& jobs.dom().finite()
    &&& jobs.dom() == crate::jobs::first_ids(jobs.len())
    &&& jobs.len() <= crate::jobs::MAX_JOBS
}

/// A request changes no job that there is, and the jobs stay numbered from one
/// and within their limit.
pub proof fn law_keeps_jobs(
    id: Tree,
    method: Seq<char>,
    params: Option<Tree>,
    jobs: Map<Seq<char>, crate::jobs::Job>,
)
    requires
        numbered(jobs),
    ensures
        ({
            let after = dispatched(id, method, params, jobs).1;
            &&& numbered(after)
            &&& jobs.len() <= after.len()
            &&& forall|job_id: Seq<char>| #[trigger]
                jobs.contains_key(job_id) ==> after.contains_key(job_id) && after[job_id]
                    == jobs[job_id]
        }),
{
    let next = crate::jobs::job_id(jobs.len() + 1);
    crate::jobs::law_next_id(jobs.len());
    assert(!jobs.contains_key(next));
    assert(jobs.insert(next, crate::jobs::running_job()).dom() == jobs.dom().insert(next));
}

/// A job that was started can be asked for by the name that the client got, and
/// is reported as running.
pub proof fn law_started_job_is_reported(
    id: Tree,
    command: Seq<char>,
    jobs: Map<Seq<char>, crate::jobs::Job>,
    asking: Tree,
    params: Option<Tree>,
)
    requires
        start_job(id, command, jobs).0 is StartJob,
        called_tool(params) == "bash_job_status"@,
        argument(call_arguments(params), "job_id"@) == Some(
            start_job(id, command, jobs).0->StartJob_job_id,
        ),
    ensures
        tool_call(asking, params, start_job(id, command, jobs).1) == (
            Doing::Respond(
                success(
                    asking,
                    tool_result(crate::jobs::job_report(crate::jobs::running_job()), false),
                ),
            ),
            start_job(id, command, jobs).1,
        ),
{
}

/// A job whose command has ended is reported with how it ended, and asking does
/// not change it.
pub proof fn law_ended_job_is_reported(
    jobs: Map<Seq<char>, crate::jobs::Job>,
    job_id: Seq<char>,
    ending: crate::command::Ending,
    asking: Tree,
    params: Option<Tree>,
)
    requires
        jobs.contains_key(job_id),
        called_tool(params) == "bash_job_status"@,
        argument(call_arguments(params), "job_id"@) == Some(job_id),
    ensures
        ({
            let after = jobs.insert(job_id, job_after(ending));
            tool_call(asking, params, after) == (
                Doing::Respond(
                    success(
                        asking,
                        tool_result(crate::jobs::job_report(job_after(ending)), false),
                    ),
                ),
                after,
            )
        }),
{
}

/// What happens to the jobs: a request comes in, or the end of a job's command
/// is recorded.
pub ghost enum Step {
    Request { id: Tree, method: Seq<char>, params: Option<Tree> },
    Recorded { job_id: Seq<char>, ending: crate::command::Ending },
}

/// The jobs after one step.
pub open spec fn after_step(
    jobs: Map<Seq<char>, crate::jobs::Job>,
    step: Step,
) -> Map<Seq<char>, crate::jobs::Job> {
    match step {
        Step::Request { id, method, params } => dispatched(id, method, params, jobs).1,
        Step::Recorded { job_id, ending } => recorded(jobs, job_id, ending),
    }
}

/// The jobs after steps.
pub open spec fn after_steps(
    jobs: Map<Seq<char>, crate::jobs::Job>,
    steps: Seq<Step>,
) -> Map<Seq<char>, crate::jobs::Job>
    decreases steps.len(),
{
    if steps.len() == 0 {
        jobs
    } else {
        after_step(after_steps(jobs, steps.drop_last()), steps.last())
    }
}

/// A job after steps: as the last end that was recorded for it makes it, and
/// unchanged where none was.
pub open spec fn job_after_steps(
    job: crate::jobs::Job,
    job_id: Seq<char>,
    steps: Seq<Step>,
) -> crate::jobs::Job
    decreases steps.len(),
{
    if steps.len() == 0 {
        job
    } else {
        match steps.last() {
            Step::Recorded { job_id: ended, ending } if ended == job_id => job_after(ending),
            _ => job_after_steps(job, job_id, steps.drop_last()),
        }
    }
}

/// The call asks for the status of a job.
pub open spec fn asks_for_job(params: Option<Tree>, job_id: Seq<char>) -> bool {
    &&& called_tool(params) == "bash_job_status"@
    &&& argument(call_arguments(params), "job_id"@) == Some(job_id)
}

/// The names that clients of a server were given in steps since it began.
pub open spec fn handed_out(steps: Seq<Step>) -> Set<Seq<char>>
    decreases steps.len(),
{
    if steps.len() == 0 {
        Set::empty()
    } else {
        let before = handed_out(steps.drop_last());
        match steps.last() {
            Step::Request { id, method, params } => {
                let jobs = after_steps(Map::empty(), steps.drop_last());
                match dispatched(id, method, params, jobs).0 {
                    Doing::StartJob { job_id, command: _, response: _ } => before.insert(job_id),
                    _ => before,
                }
            },
            Step::Recorded { job_id: _, ending: _ } => before,
        }
    }
}

/// Through any requests and any recorded ends, a job stays, and changes only
/// where its own end is recorded; and the jobs stay numbered from one and within
/// their limit.
pub proof fn law_jobs_stay(jobs: Map<Seq<char>, crate::jobs::Job>, steps: Seq<Step>)
    requires
        numbered(jobs),
    ensures
        numbered(after_steps(jobs, steps)),
        jobs.len() <= after_steps(jobs, steps).len(),
        forall|job_id: Seq<char>| #[trigger]
            jobs.contains_key(job_id) ==> after_steps(jobs, steps).contains_key(job_id)
                && after_steps(jobs, steps)[job_id] == job_after_steps(
                jobs[job_id],
                job_id,
                steps,
            ),
    decreases steps.len(),
{
    if steps.len() > 0 {
        law_jobs_stay(jobs, steps.drop_last());
        let before = after_steps(jobs, steps.drop_last());
        let after = after_steps(jobs, steps);
        match steps.last() {
            Step::Request { id, method, params } => {
                law_keeps_jobs(id, method, params, before);
            },
            Step::Recorded { job_id, ending } => {
                assert(after.dom() =~= before.dom());
            },
        }
        assert forall|job_id: Seq<char>| #[trigger] jobs.contains_key(job_id) implies after
            .contains_key(job_id) && after[job_id] == job_after_steps(
            jobs[job_id],
            job_id,
            steps,
        ) by {
            assert(before.contains_key(job_id));
        }
    }
}

/// A job whose name a client got can be asked for by that name ever after,
/// through any further requests and recorded ends. What is reported is how its
/// command ended, and that it is running where no end is recorded.
pub proof fn law_job_stays_reportable(
    before: Seq<Step>,
    starting: Tree,
    start: Option<Tree>,
    after: Seq<Step>,
    asking: Tree,
    question: Option<Tree>,
)
    requires
        ({
            let jobs = after_steps(Map::empty(), before);
            dispatched(starting, "tools/call"@, start, jobs).0 matches Doing::StartJob {
                job_id,
                command: _,
                response: _,
            } && asks_for_job(question, job_id)
        }),
    ensures
        ({
            let jobs = after_steps(Map::empty(), before);
            let (doing, started) = dispatched(starting, "tools/call"@, start, jobs);
            let job_id = doing->StartJob_job_id;
            let job = job_after_steps(crate::jobs::running_job(), job_id, after);
            dispatched(asking, "tools/call"@, question, after_steps(started, after)) == (
                Doing::Respond(
                    success(asking, tool_result(crate::jobs::job_report(job), false)),
                ),
                after_steps(started, after),
            )
        }),
{
    lemma_no_jobs();
    let none = Map::<Seq<char>, crate::jobs::Job>::empty();
    law_jobs_stay(none, before);
    let jobs = after_steps(none, before);
    law_keeps_jobs(starting, "tools/call"@, start, jobs);
    let (doing, started) = dispatched(starting, "tools/call"@, start, jobs);
    law_jobs_stay(started, after);
    lemma_methods_differ();
    assert(started.contains_key(doing->StartJob_job_id));
}

/// A server knows the jobs whose names it gave out since it began, and no
/// others.
pub proof fn law_knows_what_it_handed_out(steps: Seq<Step>)
    ensures
        after_steps(Map::empty(), steps).dom() == handed_out(steps),
    decreases steps.len(),
{
    let jobs = after_steps(Map::empty(), steps);
    if steps.len() > 0 {
        law_knows_what_it_handed_out(steps.drop_last());
    }
    assert(jobs.dom() =~= handed_out(steps));
}

/// A name that a server did not give out since it began is unknown to it, though
/// another server, or the same one before, gave it out.
pub proof fn law_unknown_until_handed_out(
    steps: Seq<Step>,
    job_id: Seq<char>,
    asking: Tree,
    question: Option<Tree>,
)
    requires
        asks_for_job(question, job_id),
        !handed_out(steps).contains(job_id),
    ensures
        dispatched(asking, "tools/call"@, question, after_steps(Map::empty(), steps)) == (
            Doing::Respond(failure(asking, INVALID_PARAMS, "Unknown job_id"@)),
            after_steps(Map::empty(), steps),
        ),
{
    law_knows_what_it_handed_out(steps);
    lemma_methods_differ();
}

/// The first job that a server starts since it began is the first of its
/// numbering.
pub proof fn law_first_job(
    steps: Seq<Step>,
    starting: Tree,
    start: Option<Tree>,
    command: Seq<char>,
)
    requires
        handed_out(steps) == Set::<Seq<char>>::empty(),
        called_tool(start) == "bash_exec_async"@,
        argument(call_arguments(start), "command"@) == Some(command),
    ensures
        dispatched(starting, "tools/call"@, start, after_steps(Map::empty(), steps)).0 == (
        Doing::StartJob {
            job_id: "job-1"@,
            command,
            response: success(starting, tool_result(started_text("job-1"@), false)),
        }),
{
    law_knows_what_it_handed_out(steps);
    lemma_methods_differ();
    reveal_strlit("job-1");
    reveal_strlit("job-");
    reveal_with_fuel(crate::text::decimal, 2);
    assert(crate::jobs::job_id(1) =~= "job-1"@);
    reveal_strlit("bash_exec_async");
    reveal_strlit("bash_job_status");
    assert("bash_exec_async"@[5] == 'e');
    assert("bash_job_status"@[5] == 'j');
}

proof fn lemma_no_jobs()
    ensures
        numbered(Map::empty()),
        Map::<Seq<char>, crate::jobs::Job>::empty().len() == 0,
{
    assert(crate::jobs::first_ids(0) =~= Set::empty());
}

proof fn lemma_methods_differ()
    ensures
        "tools/call"@ != "initialize"@,
        "tools/call"@ != "tools/list"@,
{
    reveal_strlit("tools/call");
    reveal_strlit("tools/list");
    reveal_strlit("initialize");
    assert("tools/call"@[0] == 't');
    assert("initialize"@[0] == 'i');
    assert("tools/call"@[6] == 'c');
    assert("tools/list"@[6] == 'l');
}

/// A command that is given up because its deadline has passed is answered with
/// an error that gives the limit, and a job that is given up for it is reported
/// as failed with the same message, whatever the command left behind.
pub proof fn law_timeout_is_answered(
    id: Tree,
    run: crate::command::CommandRun,
    pid: Option<u32>,
    cleaning: (crate::command::CommandRun, crate::command::RunAction),
    end: (crate::command::CommandRun, crate::command::RunAction),
)
    requires
        run.waits(),
        run.leads_to(crate::command::RunEvent::TimedOut { pid }, cleaning),
        cleaning.0.leads_to(crate::command::RunEvent::CleanedUp, end),
    ensures
        end.1 matches crate::command::RunAction::Finish(outcome) && {
            &&& command_response(id, outcome@) == failure(
                id,
                SERVER_ERROR,
                "Execution timed out after 120s"@,
            )
            &&& job_after(outcome@) == crate::jobs::failed_job("Execution timed out after 120s"@)
        },
{
    crate::command::law_timeout(run, pid, cleaning, end);
}

/// The message of an error can be read in the response.
proof fn lemma_failure_says(id: Tree, code: i64, message: Seq<char>)
    ensures
        failure(id, code, message).error matches Some(error) && error.text_of("message"@) == Some(
            message,
        ),
{
}

/// The call of a tool that there is not is refused, and changes nothing, though
/// it names a command; one that there is, is never refused on that ground.
pub proof fn law_unknown_tool_is_refused(
    id: Tree,
    params: Option<Tree>,
    jobs: Map<Seq<char>, crate::jobs::Job>,
)
    requires
        argument(call_arguments(params), "command"@) is Some,
    ensures
        !crate::tools::known_tool_names().contains(called_tool(params)) <==> tool_call(
            id,
            params,
            jobs,
        ).0 == Doing::Respond(failure(id, INVALID_PARAMS, "Unknown tool"@)),
        !crate::tools::known_tool_names().contains(called_tool(params)) ==> tool_call(
            id,
            params,
            jobs,
        ).1 == jobs,
{
    let names = crate::tools::known_tool_names();
    let name = called_tool(params);
    assert(names[0] == "bash_exec"@);
    assert(names[1] == "bash_exec_async"@);
    assert(names[2] == "bash_job_status"@);
    reveal_strlit("Unknown tool");
    reveal_strlit("Unknown job_id");
    reveal_strlit("Missing job_id argument");
    reveal_strlit("Too many background jobs");
    assert("Unknown tool"@.len() == 12);
    assert("Unknown job_id"@.len() == 14);
    assert("Missing job_id argument"@.len() == 23);
    assert("Too many background jobs"@.len() == 24);
    lemma_failure_says(id, INVALID_PARAMS, "Unknown tool"@);
    lemma_failure_says(id, INVALID_PARAMS, "Unknown job_id"@);
    lemma_failure_says(id, INVALID_PARAMS, "Missing job_id argument"@);
    lemma_failure_says(id, SERVER_ERROR, "Too many background jobs"@);
    let refused = Doing::Respond(failure(id, INVALID_PARAMS, "Unknown tool"@));
    if names.contains(name) {
        assert(name == names[0] || name == names[1] || name == names[2]);
        assert(tool_call(id, params, jobs).0 != refused);
    } else {
        assert(tool_call(id, params, jobs).0 == refused);
    }
}

/// A response says what it holds.
pub proof fn law_response_view(response: JsonRpcResponse, reaction: Reaction)
    ensures
        response@.jsonrpc == response.jsonrpc@,
        response.id matches Some(id) ==> response@.id == Some(id@),
        response.id is None ==> response@.id is None,
        response.result matches Some(result) ==> response@.result == Some(result@),
        response.result is None ==> response@.result is None,
        response.error matches Some(error) ==> response@.error == Some(error@),
        response.error is None ==> response@.error is None,
        reaction matches Reaction::Respond(own) ==> reaction@ == Doing::Respond(own@),
        reaction matches Reaction::StartJob { job_id, command, response: own } ==> reaction@ == (
        Doing::StartJob { job_id: job_id@, command: command@, response: own@ }),
        reaction matches Reaction::Run { id, command } ==> reaction@ == (Doing::Run {
            id: id@,
            command: command@,
        }),
{
}

/// Parameters say what they hold, and are missing where there are none.
pub proof fn law_params_view(params: Json)
    ensures
        tree_of(Some(params)) == Some(params@),
        tree_of(None) is None,
{
}

/// The response tells the client, under its own id, that the request was not met:
/// it holds no result, and an error with this code and this message.
pub open spec fn refuses(response: Response, id: Tree, code: int, message: Seq<char>) -> bool {
    &&& response.jsonrpc == "2.0"@
    &&& response.id == Some(id)
    &&& response.result is None
    &&& response.error matches Some(Tree::Object(error))
    &&& error.dom() == set!["code"@, "message"@]
    &&& error["code"@] == Tree::Number(crate::outside::whole_number(code as i64))
    &&& error["message"@] == Tree::Str(message)
}

/// The response hands the client, under its own id, the text of a tool, and says
/// whether the tool failed.
pub open spec fn hands_over(response: Response, id: Tree, text: Seq<char>, failed: bool) -> bool {
    &&& response.jsonrpc == "2.0"@
    &&& response.id == Some(id)
    &&& response.error is None
    &&& response.result matches Some(Tree::Object(result))
    &&& result.dom() == set!["content"@, "isError"@]
    &&& result["isError"@] == Tree::Bool(failed)
    &&& result["content"@] matches Tree::Array(items)
    &&& items.len() == 1
    &&& items[0] matches Tree::Object(item)
    &&& item.dom() == set!["type"@, "text"@]
    &&& item["type"@] == Tree::Str("text"@)
    &&& item["text"@] == Tree::Str(text)
}

/// An error is told with its code and its message.
pub proof fn law_refuses(id: Tree, code: i64, message: Seq<char>)
    ensures
        refuses(failure(id, code, message), id, code as int, message),
{
    reveal_strlit("code");
    reveal_strlit("message");
    assert("code"@.len() == 4);
    assert("message"@.len() == 7);
    let error = failure(id, code, message).error->Some_0->Object_0;
    assert(error.dom() =~= set!["code"@, "message"@]);
}

/// A tool's text is handed over whole, and with it whether the tool failed.
pub proof fn law_hands_over(id: Tree, text: Seq<char>, failed: bool)
    ensures
        hands_over(success(id, tool_result(text, failed)), id, text, failed),
{
    reveal_strlit("content");
    reveal_strlit("isError");
    reveal_strlit("type");
    reveal_strlit("text");
    assert("content"@[0] == 'c');
    assert("isError"@[0] == 'i');
    assert("type"@[1] == 'y');
    assert("text"@[1] == 'e');
    let result = tool_result(text, failed)->Object_0;
    assert(result.dom() =~= set!["content"@, "isError"@]);
    let item = result["content"@]->Array_0[0]->Object_0;
    assert(item.dom() =~= set!["type"@, "text"@]);
}

/// A command that ran to its end is answered with its exit code, whatever it is,
/// on a line of its own, and with all that it wrote to its two outputs; and it is
/// an error exactly where the command did not succeed.
pub proof fn law_finished_command_is_answered(
    id: Tree,
    exit_code: i32,
    ok: bool,
    stdout: Seq<char>,
    stderr: Seq<char>,
)
    ensures
        ({
            let ending = crate::command::Ending::Finished { exit_code, success: ok, stdout, stderr };
            let response = command_response(id, ending);
            &&& response.result matches Some(Tree::Object(result))
            &&& result.contains_key("isError"@)
            &&& result["isError"@] == Tree::Bool(!ok)
            &&& result["content"@] matches Tree::Array(items)
            &&& items.len() == 1
            &&& items[0] matches Tree::Object(item)
            &&& item["text"@] matches Tree::Str(text)
            &&& hands_over(response, id, text, !ok)
            &&& {
                let code = crate::text::rest_of_line(text, 11);
                let out = 11 + code.len() as int;
                let err = out + 9 + stdout.len();
                &&& text.take(11) == "Exit Code: "@
                &&& crate::text::signed_number(code) == exit_code
                &&& code == crate::text::signed_decimal(exit_code as int)
                &&& text.subrange(out, out + 9) == "\nSTDOUT:\n"@
                &&& text.subrange(out + 9, err) == stdout
                &&& text.subrange(err, err + 9) == "\nSTDERR:\n"@
                &&& text.skip(err + 9) == stderr
            }
        }),
{
    reveal_strlit("Exit Code: ");
    reveal_strlit("\nSTDOUT:\n");
    reveal_strlit("\nSTDERR:\n");
    let text = finished_text(exit_code, stdout, stderr);
    law_hands_over(id, text, !ok);
    let code = crate::text::signed_decimal(exit_code as int);
    crate::text::law_signed_decimal_reads_back(exit_code as int);
    crate::text::law_number_is_on_one_line(exit_code as int);
    let after = "\nSTDOUT:\n"@ + stdout + "\nSTDERR:\n"@ + stderr;
    assert(text =~= "Exit Code: "@ + code + after);
    crate::text::law_rest_of_line("Exit Code: "@, code, after);
    let out = 11 + code.len() as int;
    let err = out + 9 + stdout.len();
    assert(text.take(11) =~= "Exit Code: "@);
    assert(text.subrange(out, out + 9) =~= "\nSTDOUT:\n"@);
    assert(text.subrange(out + 9, err) =~= stdout);
    assert(text.subrange(err, err + 9) =~= "\nSTDERR:\n"@);
    assert(text.skip(err + 9) =~= stderr);
}

/// A command that did not run to its end is answered with an error that says why.
pub proof fn law_failed_command_is_answered(id: Tree, message: Seq<char>)
    ensures
        refuses(
            command_response(id, crate::command::Ending::Failed(message)),
            id,
            -32000,
            message,
        ),
{
    law_refuses(id, SERVER_ERROR, message);
}

/// The parameters of a call hold, among the arguments, this text under this key.
pub open spec fn has_argument(params: Option<Tree>, key: Seq<char>, text: Seq<char>) -> bool {
    &&& params matches Some(Tree::Object(members))
    &&& members.contains_key("arguments"@)
    &&& members["arguments"@] matches Tree::Object(arguments)
    &&& arguments.contains_key(key)
    &&& arguments[key] == Tree::Str(text)
}

/// The parameters of a call name this tool.
pub open spec fn has_name(params: Option<Tree>, tool: Seq<char>) -> bool {
    &&& params matches Some(Tree::Object(members))
    &&& members.contains_key("name"@)
    &&& members["name"@] == Tree::Str(tool)
}

/// The tools have different names.
proof fn lemma_tools_differ()
    ensures
        "bash_exec"@ != "bash_exec_async"@,
        "bash_exec"@ != "bash_job_status"@,
        "bash_exec_async"@ != "bash_job_status"@,
        "bash_job_status"@.len() > 0,
{
    reveal_strlit("bash_exec");
    reveal_strlit("bash_exec_async");
    reveal_strlit("bash_job_status");
    assert("bash_exec"@.len() == 9);
    assert("bash_exec_async"@.len() == 15 && "bash_exec_async"@[5] == 'e');
    assert("bash_job_status"@.len() == 15 && "bash_job_status"@[5] == 'j');
}

/// A call of `bash_exec` with a command runs that command, as it is, and is
/// answered under its own id; it does not touch the jobs.
pub proof fn law_bash_exec(
    id: Tree,
    params: Option<Tree>,
    command: Seq<char>,
    jobs: Map<Seq<char>, crate::jobs::Job>,
)
    requires
        has_name(params, "bash_exec"@),
        has_argument(params, "command"@, command),
        command.len() > 0,
    ensures
        dispatched(id, "tools/call"@, params, jobs) == (Doing::Run { id, command }, jobs),
{
    lemma_methods_differ();
    lemma_tools_differ();
}

/// A call of `bash_exec_async` with a command starts a job for that command, as it
/// is, where there are fewer than 64 jobs. The response tells the job's name, on a
/// line of its own, and that it is running; and the jobs are those that there were
/// and this one. With 64 jobs the call is refused, and changes nothing.
pub proof fn law_bash_exec_async(
    id: Tree,
    params: Option<Tree>,
    command: Seq<char>,
    jobs: Map<Seq<char>, crate::jobs::Job>,
)
    requires
        has_name(params, "bash_exec_async"@),
        has_argument(params, "command"@, command),
        command.len() > 0,
    ensures
        jobs.len() < 64 ==> {
            let (doing, after) = dispatched(id, "tools/call"@, params, jobs);
            &&& doing matches Doing::StartJob { job_id, command: own, response }
            &&& own == command
            &&& job_id == "job-"@ + crate::text::decimal(jobs.len() + 1)
            &&& hands_over(response, id, "job_id="@ + job_id + "\nstate=running"@, false)
            &&& after == jobs.insert(job_id, crate::jobs::running_job())
        },
        jobs.len() >= 64 ==> {
            let (doing, after) = dispatched(id, "tools/call"@, params, jobs);
            &&& doing matches Doing::Respond(response)
            &&& refuses(response, id, -32000, "Too many background jobs"@)
            &&& after == jobs
        },
{
    lemma_methods_differ();
    lemma_tools_differ();
    law_refuses(id, SERVER_ERROR, "Too many background jobs"@);
    law_hands_over(id, started_text(crate::jobs::job_id(jobs.len() + 1)), false);
}

/// A call of `bash_job_status` with the name of a job is answered with the report
/// on that job, which is no error whatever became of the job; one with a name that
/// no job has is refused. Neither changes the jobs.
pub proof fn law_bash_job_status(
    id: Tree,
    params: Option<Tree>,
    job_id: Seq<char>,
    jobs: Map<Seq<char>, crate::jobs::Job>,
)
    requires
        has_name(params, "bash_job_status"@),
        has_argument(params, "job_id"@, job_id),
        job_id.len() > 0,
    ensures
        ({
            let (doing, after) = dispatched(id, "tools/call"@, params, jobs);
            &&& after == jobs
            &&& doing matches Doing::Respond(response)
            &&& jobs.contains_key(job_id) ==> hands_over(
                response,
                id,
                crate::jobs::job_report(jobs[job_id]),
                false,
            )
            &&& !jobs.contains_key(job_id) ==> refuses(response, id, -32602, "Unknown job_id"@)
        }),
{
    lemma_methods_differ();
    lemma_tools_differ();
    law_refuses(id, INVALID_PARAMS, "Unknown job_id"@);
    law_hands_over(id, crate::jobs::job_report(jobs[job_id]), false);
}

/// A call without a command, or for a status without a job's name, is refused,
/// whatever else it holds; an empty text is none, and so is anything but a text.
pub proof fn law_missing_argument(
    id: Tree,
    params: Option<Tree>,
    jobs: Map<Seq<char>, crate::jobs::Job>,
)
    ensures
        has_name(params, "bash_job_status"@) && (forall|text: Seq<char>|
            text.len() > 0 ==> !#[trigger] has_argument(params, "job_id"@, text)) ==> {
            let (doing, after) = dispatched(id, "tools/call"@, params, jobs);
            &&& doing matches Doing::Respond(response)
            &&& refuses(response, id, -32602, "Missing job_id argument"@)
            &&& after == jobs
        },
        !has_name(params, "bash_job_status"@) && (forall|text: Seq<char>|
            text.len() > 0 ==> !#[trigger] has_argument(params, "command"@, text)) ==> {
            let (doing, after) = dispatched(id, "tools/call"@, params, jobs);
            &&& doing matches Doing::Respond(response)
            &&& refuses(response, id, -32602, "Missing command argument"@)
            &&& after == jobs
        },
{
    lemma_methods_differ();
    lemma_tools_differ();
    law_refuses(id, INVALID_PARAMS, "Missing job_id argument"@);
    law_refuses(id, INVALID_PARAMS, "Missing command argument"@);
    let arguments = call_arguments(params);
    if let Some(text) = argument(arguments, "job_id"@) {
        assert(has_argument(params, "job_id"@, text));
    }
    if let Some(text) = argument(arguments, "command"@) {
        assert(has_argument(params, "command"@, text));
    }
}

/// A call that names a command and no tool that there is, is refused.
pub proof fn law_no_such_tool(
    id: Tree,
    params: Option<Tree>,
    command: Seq<char>,
    jobs: Map<Seq<char>, crate::jobs::Job>,
)
    requires
        !has_name(params, "bash_exec"@),
        !has_name(params, "bash_exec_async"@),
        !has_name(params, "bash_job_status"@),
        has_argument(params, "command"@, command),
        command.len() > 0,
    ensures
        ({
            let (doing, after) = dispatched(id, "tools/call"@, params, jobs);
            &&& doing matches Doing::Respond(response)
            &&& refuses(response, id, -32602, "Unknown tool"@)
            &&& after == jobs
        }),
{
    lemma_methods_differ();
    lemma_tools_differ();
    reveal_strlit("bash_exec");
    reveal_strlit("bash_exec_async");
    assert("bash_exec"@.len() == 9);
    assert("bash_exec_async"@.len() == 15);
    law_refuses(id, INVALID_PARAMS, "Unknown tool"@);
}

/// A client that connects is told of the server, and one that asks is told of its
/// tools, whatever parameters it sends; a method that there is not is refused. None
/// of that changes the jobs.
pub proof fn law_methods(
    id: Tree,
    method: Seq<char>,
    params: Option<Tree>,
    jobs: Map<Seq<char>, crate::jobs::Job>,
)
    requires
        method != "tools/call"@,
    ensures
        dispatched(id, method, params, jobs).1 == jobs,
        dispatched(id, method, params, jobs).0 matches Doing::Respond(response) && {
            &&& response.id == Some(id)
            &&& response.jsonrpc == "2.0"@
            &&& method == "initialize"@ ==> response.error is None && response.result == Some(
                crate::catalog::initialize_result(),
            )
            &&& method == "tools/list"@ ==> response.error is None && response.result == Some(
                crate::catalog::tool_list_result(),
            )
            &&& method != "initialize"@ && method != "tools/list"@ ==> refuses(
                response,
                id,
                -32601,
                "Method not found"@,
            )
        },
{
    reveal_strlit("initialize");
    reveal_strlit("tools/list");
    assert("initialize"@[0] == 'i');
    assert("tools/list"@[0] == 't');
    law_refuses(id, METHOD_NOT_FOUND, "Method not found"@);
}

/// To record how the command of a job ended changes that job and no other: it then
/// has the exit code and all the output of a command that ran to its end, or the
/// reason where the command did not. A job that there is not is not made.
pub proof fn law_recorded(
    jobs: Map<Seq<char>, crate::jobs::Job>,
    job_id: Seq<char>,
    ending: crate::command::Ending,
    other: Seq<char>,
)
    ensures
        recorded(jobs, job_id, ending).contains_key(other) == jobs.contains_key(other),
        other != job_id && jobs.contains_key(other) ==> recorded(jobs, job_id, ending)[other]
            == jobs[other],
        jobs.contains_key(job_id) ==> {
            let job = recorded(jobs, job_id, ending)[job_id];
            match ending {
                crate::command::Ending::Finished { exit_code, success: _, stdout, stderr } => {
                    &&& job.state == "completed"@
                    &&& job.exit_code == Some(exit_code)
                    &&& job.stdout == stdout
                    &&& job.stderr == stderr
                },
                crate::command::Ending::Failed(message) => {
                    &&& job.state == "failed"@
                    &&& job.exit_code is None
                    &&& job.stdout.len() == 0
                    &&& job.stderr == message
                },
            }
        },
{
}

} // verus!
