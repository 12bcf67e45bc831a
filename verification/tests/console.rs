use mcp_shell_server::console::{
    ansi_console_mode, log_join_result, log_request, log_task_verbose, write_task_line,
};
use mcp_shell_server::json::Json;
use mcp_shell_server::rpc::JsonRpcRequest;

#[test]
fn tasks_are_told_of_in_color() {
    let line = "\x1b[36m[verbose]\x1b[0m task received  \x1b[32mmethod\x1b[0m=\x1b[33mm\x1b[0m  \
                id=1  params={\"a\":[]}";
    assert_eq!(write_task_line("1", "m", "{\"a\":[]}"), line);
    let params = Some(Json::object().with("a", Json::array()));
    assert_eq!(log_task_verbose(true, &Json::integer(1), "m", &params), Some(line.to_string()));
    assert_eq!(log_task_verbose(false, &Json::integer(1), "m", &params), None);
}

#[test]
fn notifications_are_told_of_with_a_null_id() {
    let request = JsonRpcRequest {
        jsonrpc: "2.0".to_string(),
        id: None,
        method: "m".to_string(),
        params: None,
    };
    assert_eq!(log_request(true, &request), Some(write_task_line("null", "m", "null")));
    assert_eq!(log_request(false, &request), None);
    let request = JsonRpcRequest { id: Some(Json::string("x")), ..request };
    assert_eq!(log_request(true, &request), Some(write_task_line("\"x\"", "m", "null")));
}

#[test]
fn handlers_that_do_not_return_are_told_of() {
    assert_eq!(
        log_join_result(true, "boom"),
        "mcp-shell-server: a request handler panicked: boom"
    );
    assert_eq!(
        log_join_result(false, "gone"),
        "mcp-shell-server: a request handler was cancelled: gone"
    );
}

#[test]
fn a_console_gets_one_more_bit() {
    assert_eq!(ansi_console_mode(true, Some(3)), Some(7));
    assert_eq!(ansi_console_mode(true, Some(4)), Some(4));
    assert_eq!(ansi_console_mode(true, None), None);
    assert_eq!(ansi_console_mode(false, Some(3)), None);
}
