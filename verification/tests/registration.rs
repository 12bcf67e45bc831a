use mcp_shell_server::json::Json;
use mcp_shell_server::registration::{
    build_register_frame, judge_response, keepalive, read_answer, register_line, write_registered,
    AttemptAction, AttemptEvent, AttemptPhase, Node, Reconnect, RegistrationError, RetryAction,
};

fn node() -> Node {
    Node {
        dispatcher: "host:1".to_string(),
        node_id: "n".to_string(),
        tools: vec!["bash_exec".to_string(), "bash_job_status".to_string()],
        token: "t".to_string(),
        user: "u".to_string(),
        pwd: "p".to_string(),
    }
}

#[test]
fn register_frame_is_protocol_v3_with_user_and_pwd() {
    let tools = vec!["bash_exec".to_string()];
    let frame = build_register_frame("gpu-node", &tools, "tok", "alice", "hunter2").to_value();
    assert_eq!(frame["type"], "register");
    assert_eq!(frame["version"], 3);
    assert_eq!(frame["node_id"], "gpu-node");
    assert_eq!(frame["tools"], serde_json::Value::from(vec!["bash_exec"]));
    assert_eq!(frame["token"], "tok");
    assert_eq!(frame["user"], "alice");
    assert_eq!(frame["pwd"], "hunter2");
}

#[test]
fn the_registration_is_one_line() {
    let line = register_line("a\nb", &[], "t", "u", "p").unwrap();
    assert_eq!(
        line,
        "{\"node_id\":\"a\\nb\",\"pwd\":\"p\",\"token\":\"t\",\"tools\":[],\
         \"type\":\"register\",\"user\":\"u\",\"version\":3}\n"
    );
}

#[test]
fn answers_are_told_apart() {
    assert_eq!(read_answer(" {\"type\":\"registered\"} \n"), Ok(()));
    assert_eq!(read_answer(""), Err(RegistrationError::Closed));
    let rejected = read_answer("{\"type\":\"error\",\"reason\":\"bad_token\"}\n").unwrap_err();
    assert_eq!(rejected, RegistrationError::Rejected("bad_token".to_string()));
    let unknown = read_answer("{\"type\":\"error\",\"reason\":1}").unwrap_err();
    assert_eq!(unknown, RegistrationError::Rejected("unknown".to_string()));
    let other = read_answer("{\"type\":\"hello\"}").unwrap_err();
    assert_eq!(other.message(), "unexpected registration response: {\"type\":\"hello\"}");
    let untyped = read_answer("[true]").unwrap_err();
    assert_eq!(untyped.message(), "unexpected registration response: [true]");
    let malformed = read_answer("\n").unwrap_err();
    assert_eq!(malformed.message(), "EOF while parsing a value at line 1 column 0");
    assert_eq!(judge_response(Ok(Json::Null)), Err(RegistrationError::Unexpected(Json::Null)));
    assert_eq!(
        judge_response(Err("no".to_string())),
        Err(RegistrationError::Malformed("no".to_string()))
    );
}

#[test]
fn refusals_are_told_in_words() {
    assert_eq!(
        RegistrationError::Closed.message(),
        "dispatcher closed the connection before responding to registration"
    );
    assert_eq!(
        RegistrationError::Rejected("x".to_string()).message(),
        "dispatcher rejected registration: x"
    );
    assert_eq!(
        write_registered("n", "u", &node().tools, "host:1"),
        "mcp-shell-server: registered as 'n' (user: u, tools: bash_exec, bash_job_status) \
         with dispatcher host:1"
    );
}

#[test]
fn an_attempt_registers_and_serves() {
    let node = node();
    let (phase, action) = AttemptPhase::begin();
    assert_eq!(action, AttemptAction::Connect);
    let (phase, action) = phase.next(&node, false, AttemptEvent::Done);
    assert_eq!(action, AttemptAction::Watch(keepalive(false)));
    let (phase, action) = phase.next(&node, false, AttemptEvent::Done);
    let line = register_line("n", &node.tools, "t", "u", "p").unwrap();
    assert_eq!(action, AttemptAction::Send { warning: None, line });
    let (phase, action) = phase.next(&node, false, AttemptEvent::Done);
    assert_eq!(action, AttemptAction::ReadAnswer);
    let answer = "{\"type\":\"registered\"}\n".to_string();
    let (phase, action) = phase.next(&node, false, AttemptEvent::Answered(answer));
    let line = write_registered("n", "u", &node.tools, "host:1");
    assert_eq!(action, AttemptAction::Serve { line });
    let (phase, action) = phase.next(&node, false, AttemptEvent::Done);
    assert_eq!((phase, action), (AttemptPhase::Ended, AttemptAction::Finish(Ok(()))));
}

#[test]
fn an_attempt_fails_where_a_step_fails_but_for_the_watch() {
    let node = node();
    let failed = || AttemptEvent::Failed("no".to_string());
    let over = (AttemptPhase::Ended, AttemptAction::Finish(Err("no".to_string())));
    assert_eq!(AttemptPhase::Connecting.next(&node, false, failed()), over);
    assert_eq!(AttemptPhase::Sending.next(&node, false, failed()), over);
    assert_eq!(AttemptPhase::AwaitingAnswer.next(&node, false, failed()), over);
    match AttemptPhase::Watching.next(&node, false, failed()) {
        (AttemptPhase::Sending, AttemptAction::Send { warning, .. }) => assert_eq!(
            warning.unwrap(),
            "mcp-shell-server: failed to enable TCP keepalive: no"
        ),
        other => panic!("{other:?}"),
    }
    let closed = AttemptEvent::Answered(String::new());
    assert_eq!(
        AttemptPhase::AwaitingAnswer.next(&node, false, closed).1,
        AttemptAction::Finish(Err(RegistrationError::Closed.message()))
    );
}

#[test]
fn the_watch_depends_on_the_platform() {
    let unix = keepalive(false);
    assert_eq!((unix.time_secs, unix.interval_secs, unix.retries), (20, 10, Some(3)));
    assert_eq!(keepalive(true).retries, None);
}

fn seconds(action: RetryAction) -> u64 {
    match action {
        RetryAction::RetryAfter { seconds, .. } => seconds,
        other => panic!("{other:?}"),
    }
}

#[test]
fn five_failures_in_a_row_are_the_end() {
    let mut reconnect = Reconnect::new();
    for expected in [1, 2, 5, 10] {
        let (after, action) = reconnect.next(Err("down".to_string()), "host:1");
        reconnect = after;
        assert_eq!(seconds(action), expected);
    }
    let (_, action) = reconnect.next(Err("down".to_string()), "host:1");
    let expected = RetryAction::GiveUp {
        line: "mcp-shell-server: registration failed (5/5): down".to_string(),
        error: "giving up after 5 consecutive failed attempts to connect to dispatcher host:1"
            .to_string(),
    };
    assert_eq!(action, expected);
}

#[test]
fn a_connection_starts_the_count_anew() {
    let mut reconnect = Reconnect::new();
    for _ in 0..4 {
        reconnect = reconnect.next(Err("down".to_string()), "host:1").0;
    }
    let (after, action) = reconnect.next(Ok(()), "host:1");
    let expected = RetryAction::RetryAfter {
        line: "mcp-shell-server: dispatcher connection closed, reconnecting".to_string(),
        seconds: 1,
    };
    assert_eq!(action, expected);
    reconnect = after;
    for expected in [2, 5, 10, 10] {
        let (after, action) = reconnect.next(Err("down".to_string()), "host:1");
        reconnect = after;
        assert_eq!(seconds(action), expected);
    }
    let (_, action) = reconnect.next(Err("down".to_string()), "host:1");
    assert!(matches!(action, RetryAction::GiveUp { .. }));
}
