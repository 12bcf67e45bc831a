use mcp_shell_server::json::Json;
use mcp_shell_server::rpc::JsonRpcRequest;
use mcp_shell_server::serve::{
    parse_error_response, to_line, Call, InFlight, ServeAction, ServeEvent, ServeLoop, ServePhase,
    MAX_IN_FLIGHT, RESPONSE_QUEUE_SIZE,
};

fn request(id: Option<Json>) -> JsonRpcRequest {
    JsonRpcRequest {
        jsonrpc: "2.0".to_string(),
        id,
        method: "tools/list".to_string(),
        params: Some(Json::Null),
    }
}

fn numbered(id: i64) -> ServeEvent {
    ServeEvent::Parsed(Ok(request(Some(Json::integer(id)))))
}

fn call(id: i64) -> ServeAction {
    ServeAction::Start(Call {
        id: Json::integer(id),
        method: "tools/list".to_string(),
        params: Some(Json::Null),
    })
}

fn parsing() -> ServeLoop {
    let (serving, _, _) = ServeLoop::begin();
    serving.next(ServeEvent::Line("{}".to_string())).0
}

fn busy() -> ServeLoop {
    let mut serving = ServeLoop::begin().0;
    for id in 1..=16 {
        serving = serving.next(ServeEvent::Line("{}".to_string())).0;
        let (starting, action) = serving.next(numbered(id));
        assert_eq!(action, call(id));
        serving = starting.next(ServeEvent::Started).0;
    }
    serving
}

#[test]
fn the_loop_reads_until_it_drains() {
    assert_eq!((MAX_IN_FLIGHT, RESPONSE_QUEUE_SIZE), (16, 128));
    let (serving, action, jobs) = ServeLoop::begin();
    assert_eq!(action, ServeAction::ReadLine);
    assert!(jobs.get("job-1").is_none());
    let (serving, action) = serving.next(ServeEvent::Line(" \t ".to_string()));
    assert_eq!(action, ServeAction::ReadLine);
    let (serving, action) = serving.next(ServeEvent::Line(" {} ".to_string()));
    assert_eq!(action, ServeAction::Parse(" {} ".to_string()));
    let (serving, action) = serving.next(numbered(1));
    assert_eq!(action, call(1));
    let (serving, action) = serving.next(ServeEvent::Started);
    assert_eq!(action, ServeAction::ReadLine);
    let (serving, action) = serving.next(ServeEvent::InputEnded);
    assert_eq!(action, ServeAction::AwaitHandled);
    let (serving, action) = serving.next(ServeEvent::Handled);
    assert_eq!(action, ServeAction::Flush);
    let (serving, action) = serving.next(ServeEvent::Flushed);
    assert_eq!((serving.phase, action), (ServePhase::Closed, ServeAction::Finish));
}

#[test]
fn a_loop_that_handles_nothing_has_nothing_to_wait_for() {
    let (_, action) = ServeLoop::begin().0.next(ServeEvent::InputEnded);
    assert_eq!(action, ServeAction::Flush);
}

#[test]
fn no_more_requests_are_in_flight_than_allowed() {
    let serving = busy().next(ServeEvent::Line("{}".to_string())).0;
    let (serving, action) = serving.next(numbered(17));
    assert_eq!(action, ServeAction::ReadLine);
    let serving = serving.next(ServeEvent::Line("{}".to_string())).0;
    let (serving, action) = serving.next(numbered(18));
    assert_eq!(action, ServeAction::ReadLine);
    assert_eq!(serving.waiting.len(), 2);

    let (serving, action) = serving.next(ServeEvent::Handled);
    assert_eq!(action, call(17));
    let (serving, action) = serving.next(ServeEvent::Started);
    assert_eq!(action, ServeAction::ReadLine);
    let (serving, action) = serving.next(ServeEvent::Handled);
    assert_eq!(action, call(18));
    let (serving, _) = serving.next(ServeEvent::Started);
    let (serving, action) = serving.next(ServeEvent::Handled);
    assert_eq!(action, ServeAction::ReadLine);
    let serving = serving.next(ServeEvent::Line("{}".to_string())).0;
    assert_eq!(serving.next(numbered(19)).1, call(19));
}

#[test]
fn requests_that_wait_are_handled_though_the_input_ends() {
    let serving = busy().next(ServeEvent::Line("{}".to_string())).0;
    let (serving, _) = serving.next(numbered(17));
    let (serving, action) = serving.next(ServeEvent::InputEnded);
    assert_eq!(action, ServeAction::AwaitHandled);
    let (serving, action) = serving.next(ServeEvent::Handled);
    assert_eq!(action, call(17));
    let (mut serving, mut action) = serving.next(ServeEvent::Started);
    for _ in 0..16 {
        assert_eq!(action, ServeAction::AwaitHandled);
        (serving, action) = serving.next(ServeEvent::Handled);
    }
    assert_eq!(action, ServeAction::Flush);
    assert_eq!(serving.phase, ServePhase::Flushing);
}

#[test]
fn places_are_taken_and_given_back() {
    let mut in_flight = InFlight::new();
    assert!(in_flight.is_empty());
    for _ in 0..16 {
        assert!(in_flight.take());
    }
    assert!(!in_flight.take());
    in_flight.give_back();
    assert!(!in_flight.is_empty());
    assert!(in_flight.take());
    assert!(!in_flight.take());
}

#[test]
fn notifications_are_not_answered() {
    let (serving, action) = parsing().next(ServeEvent::Parsed(Ok(request(None))));
    assert_eq!((serving.phase, action), (ServePhase::Reading, ServeAction::ReadLine));
}

#[test]
fn lines_that_are_no_requests_are_answered_with_an_error() {
    let bad = || parsing().next(ServeEvent::Parsed(Err("bad".to_string())));
    let (serving, action) = bad();
    assert_eq!(serving.phase, ServePhase::Answering);
    assert_eq!(action, ServeAction::Send(parse_error_response("bad")));
    let response = parse_error_response("bad");
    assert_eq!(response.id, Some(Json::Null));
    let error = response.error.unwrap().to_value();
    assert_eq!(error["code"], -32700);
    assert_eq!(error["message"], "Parse error: bad");
    let (serving, action) = bad().0.next(ServeEvent::Sent);
    assert_eq!((serving.phase, action), (ServePhase::Reading, ServeAction::ReadLine));
    let (serving, action) = bad().0.next(ServeEvent::SendFailed);
    assert_eq!((serving.phase, action), (ServePhase::Flushing, ServeAction::Flush));
}

#[test]
fn messages_end_with_a_newline() {
    assert_eq!(to_line("{}".to_string()), "{}\n");
}
