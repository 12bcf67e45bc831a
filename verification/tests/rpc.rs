use mcp_shell_server::command::{CommandRun, Outcome, RunAction, RunEvent};
use mcp_shell_server::jobs::{JobStore, MAX_JOBS};
use mcp_shell_server::json::Json;
use mcp_shell_server::rpc::{
    dispatch, error_response, handle_tool_call, record_outcome, respond_to_command,
    JsonRpcResponse, Reaction,
};
use mcp_shell_server::serve::ServeLoop;
use serde_json::Value;

fn call(params: &str, jobs: &mut JobStore) -> Reaction {
    let params = Json::parse(params).unwrap();
    dispatch(Json::integer(7), "tools/call", Some(params), jobs)
}

fn response(reaction: Reaction) -> JsonRpcResponse {
    match reaction {
        Reaction::Respond(response) => response,
        other => panic!("{other:?}"),
    }
}

fn result(response: JsonRpcResponse) -> Value {
    assert_eq!(response.jsonrpc, "2.0");
    assert_eq!(response.error, None);
    response.result.unwrap().to_value()
}

fn error(response: JsonRpcResponse) -> (i64, String) {
    assert_eq!(response.jsonrpc, "2.0");
    assert_eq!(response.id, Some(Json::integer(7)));
    assert_eq!(response.result, None);
    let error = response.error.unwrap().to_value();
    (error["code"].as_i64().unwrap(), error["message"].as_str().unwrap().to_string())
}

fn refusal(params: &str) -> (i64, String) {
    error(response(call(params, &mut JobStore::new())))
}

#[test]
fn a_client_is_told_of_the_server() {
    let mut jobs = JobStore::new();
    let reaction = dispatch(Json::string("x"), "initialize", None, &mut jobs);
    let response = response(reaction);
    assert_eq!(response.id, Some(Json::string("x")));
    let result = result(response);
    assert_eq!(
        result.to_string(),
        "{\"capabilities\":{\"tools\":{}},\"protocolVersion\":\"2025-11-25\",\
         \"serverInfo\":{\"name\":\"rust-mcp-shell\",\"version\":\"0.1.0\"}}"
    );
}

#[test]
fn a_client_is_told_of_the_tools() {
    let mut jobs = JobStore::new();
    let result = result(response(dispatch(Json::Null, "tools/list", None, &mut jobs)));
    let tools = result["tools"].as_array().unwrap();
    let names: Vec<&str> = tools.iter().map(|tool| tool["name"].as_str().unwrap()).collect();
    assert_eq!(names, vec!["bash_exec", "bash_exec_async", "bash_job_status"]);
    assert_eq!(tools[0]["description"], "Execute a bash command safely on the host");
    let input = &tools[0]["inputSchema"];
    assert_eq!(input["type"], "object");
    assert_eq!(input["properties"]["command"]["type"], "string");
    assert_eq!(
        input["properties"]["command"]["description"],
        "The shell command to be executed"
    );
    assert_eq!(input["required"].to_string(), "[\"command\"]");
    let output = &tools[0]["outputSchema"];
    assert_eq!(output["properties"]["exit_code"]["type"], "integer");
    assert_eq!(output["properties"]["stderr"]["type"], "string");
    assert_eq!(output["required"].to_string(), "[\"exit_code\",\"stdout\",\"stderr\"]");
    assert_eq!(tools[1]["inputSchema"]["required"].to_string(), "[\"command\"]");
    assert!(tools[1].get("outputSchema").is_none());
    assert_eq!(
        tools[2].to_string(),
        "{\"description\":\"Get the status and output of a background bash job\",\
         \"inputSchema\":{\"properties\":{\"job_id\":{\"type\":\"string\"}},\
         \"required\":[\"job_id\"],\"type\":\"object\"},\"name\":\"bash_job_status\"}"
    );
}

#[test]
fn an_unknown_method_is_refused() {
    let mut jobs = JobStore::new();
    let reaction = dispatch(Json::integer(7), "tools/calls", None, &mut jobs);
    assert_eq!(error(response(reaction)), (-32601, "Method not found".to_string()));
}

#[test]
fn calls_that_say_too_little_are_refused() {
    let missing_command = (-32602, "Missing command argument".to_string());
    let missing_job = (-32602, "Missing job_id argument".to_string());
    let reaction = handle_tool_call(Json::integer(7), None, &mut JobStore::new());
    assert_eq!(error(response(reaction)), missing_command);
    assert_eq!(refusal("{}"), missing_command);
    assert_eq!(refusal("[1]"), missing_command);
    assert_eq!(refusal("{\"name\":\"bash_exec\"}"), missing_command);
    assert_eq!(refusal("{\"name\":\"bash_exec\",\"arguments\":{\"command\":\"\"}}"), missing_command);
    assert_eq!(refusal("{\"name\":\"bash_exec\",\"arguments\":{\"command\":1}}"), missing_command);
    assert_eq!(refusal("{\"name\":\"nothing\"}"), missing_command);
    assert_eq!(refusal("{\"name\":\"bash_job_status\"}"), missing_job);
    assert_eq!(
        refusal("{\"name\":\"bash_job_status\",\"arguments\":{\"job_id\":\"\"}}"),
        missing_job
    );
}

#[test]
fn unknown_tools_and_jobs_are_refused() {
    assert_eq!(
        refusal("{\"name\":\"rm\",\"arguments\":{\"command\":\"ls\"}}"),
        (-32602, "Unknown tool".to_string())
    );
    assert_eq!(
        refusal("{\"arguments\":{\"command\":\"ls\"}}"),
        (-32602, "Unknown tool".to_string())
    );
    assert_eq!(
        refusal("{\"name\":\"bash_job_status\",\"arguments\":{\"job_id\":\"job-1\"}}"),
        (-32602, "Unknown job_id".to_string())
    );
}

#[test]
fn a_command_is_run_as_it_was_given() {
    let mut jobs = JobStore::new();
    let params = "{\"name\":\"bash_exec\",\"arguments\":{\"command\":\"echo hi\"}}";
    let expected = Reaction::Run { id: Json::integer(7), command: "echo hi".to_string() };
    assert_eq!(call(params, &mut jobs), expected);
    assert!(jobs.get("job-1").is_none());
}

#[test]
fn a_background_job_can_be_followed_to_its_end() {
    let mut jobs = JobStore::new();
    let start = "{\"name\":\"bash_exec_async\",\"arguments\":{\"command\":\"sleep 1\"}}";
    match call(start, &mut jobs) {
        Reaction::StartJob { job_id, command, response } => {
            assert_eq!((job_id.as_str(), command.as_str()), ("job-1", "sleep 1"));
            let result = result(response);
            assert_eq!(result["content"][0]["type"], "text");
            assert_eq!(result["content"][0]["text"], "job_id=job-1\nstate=running");
            assert_eq!(result["isError"], false);
        }
        other => panic!("{other:?}"),
    }
    let ask = "{\"name\":\"bash_job_status\",\"arguments\":{\"job_id\":\"job-1\"}}";
    let running = result(response(call(ask, &mut jobs)));
    assert_eq!(
        running["content"][0]["text"],
        "state=running\nexit_code=None\nSTDOUT:\n\nSTDERR:\n"
    );
    let outcome = Outcome::Finished {
        exit_code: 0,
        success: true,
        stdout: "done\n".to_string(),
        stderr: String::new(),
    };
    record_outcome(&mut jobs, "job-1", outcome);
    let ended = result(response(call(ask, &mut jobs)));
    assert_eq!(
        ended["content"][0]["text"],
        "state=completed\nexit_code=Some(0)\nSTDOUT:\ndone\n\nSTDERR:\n"
    );
    record_outcome(&mut jobs, "job-1", Outcome::Failed("Execution failed: x".to_string()));
    let failed = result(response(call(ask, &mut jobs)));
    assert_eq!(
        failed["content"][0]["text"],
        "state=failed\nexit_code=None\nSTDOUT:\n\nSTDERR:\nExecution failed: x"
    );
    record_outcome(&mut jobs, "job-2", Outcome::Failed("x".to_string()));
    assert!(jobs.get("job-2").is_none());
}

#[test]
fn too_many_background_jobs_are_refused() {
    let mut jobs = JobStore::new();
    let start = "{\"name\":\"bash_exec_async\",\"arguments\":{\"command\":\"ls\"}}";
    for _ in 0..MAX_JOBS {
        assert!(matches!(call(start, &mut jobs), Reaction::StartJob { .. }));
    }
    assert_eq!(
        error(response(call(start, &mut jobs))),
        (-32000, "Too many background jobs".to_string())
    );
}

#[test]
fn commands_are_answered_with_what_came_of_them() {
    let finished = |exit_code, success| Outcome::Finished {
        exit_code,
        success,
        stdout: "out".to_string(),
        stderr: "err".to_string(),
    };
    let good = result(respond_to_command(Json::integer(7), finished(0, true)));
    assert_eq!(good["content"][0]["text"], "Exit Code: 0\nSTDOUT:\nout\nSTDERR:\nerr");
    assert_eq!(good["isError"], false);
    let bad = result(respond_to_command(Json::integer(7), finished(-1, false)));
    assert_eq!(bad["content"][0]["text"], "Exit Code: -1\nSTDOUT:\nout\nSTDERR:\nerr");
    assert_eq!(bad["isError"], true);
    let none = respond_to_command(
        Json::integer(7),
        Outcome::Failed("Execution timed out after 120s".to_string()),
    );
    assert_eq!(error(none), (-32000, "Execution timed out after 120s".to_string()));
}

#[test]
fn errors_name_the_request_and_the_code() {
    let response = error_response(Json::integer(7), -5, "why");
    assert_eq!(error(response), (-5, "why".to_string()));
}

#[test]
fn a_job_stays_known_through_what_follows() {
    let ask = "{\"name\":\"bash_job_status\",\"arguments\":{\"job_id\":\"job-1\"}}";
    let start = "{\"name\":\"bash_exec_async\",\"arguments\":{\"command\":\"ls\"}}";
    let unknown = (-32602, "Unknown job_id".to_string());
    let text = |reaction| result(response(reaction))["content"][0]["text"].to_string();

    let (_, _, mut jobs) = ServeLoop::begin();
    assert_eq!(error(response(call(ask, &mut jobs))), unknown);
    assert!(matches!(call(start, &mut jobs), Reaction::StartJob { job_id, .. } if job_id == "job-1"));
    assert!(matches!(call(start, &mut jobs), Reaction::StartJob { job_id, .. } if job_id == "job-2"));
    call("{\"name\":\"bash_exec\",\"arguments\":{\"command\":\"ls\"}}", &mut jobs);
    record_outcome(&mut jobs, "job-2", Outcome::Failed("no".to_string()));
    record_outcome(&mut jobs, "job-9", Outcome::Failed("no".to_string()));
    assert!(text(call(ask, &mut jobs)).starts_with("\"state=running"));
    record_outcome(&mut jobs, "job-1", Outcome::Failed("lost".to_string()));
    call(start, &mut jobs);
    assert!(text(call(ask, &mut jobs)).starts_with("\"state=failed"));

    let (_, _, mut others) = ServeLoop::begin();
    assert_eq!(error(response(call(ask, &mut others))), unknown);
    assert!(matches!(call(start, &mut others), Reaction::StartJob { job_id, .. } if job_id == "job-1"));
}

#[test]
fn output_that_is_held_back_ends_in_a_timeout_error() {
    let (run, _) = CommandRun::begin("sleep infinity &", false, false);
    let (run, _) = run.next(RunEvent::Spawned);
    let (run, _) = run.next(RunEvent::Exited { code: Some(0), success: true });
    let (run, _) = run.next(RunEvent::TimedOut { pid: Some(7) });
    let (_, action) = run.next(RunEvent::CleanedUp);
    let RunAction::Finish(outcome) = action else { panic!("{action:?}") };
    assert_eq!(
        error(respond_to_command(Json::integer(7), outcome)),
        (-32000, "Execution timed out after 120s".to_string())
    );
}
