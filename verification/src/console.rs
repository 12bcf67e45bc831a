//! What the server prints on its console.

use vstd::prelude::*;
use vstd::string::*;

use crate::json::Json;
use crate::rpc::JsonRpcRequest;

verus! {

pub const COLOR_RESET: &'static str = "\x1b[0m";

pub const COLOR_CYAN: &'static str = "\x1b[36m";

pub const COLOR_YELLOW: &'static str = "\x1b[33m";

pub const COLOR_GREEN: &'static str = "\x1b[32m";

/// The bit of a Windows console's mode that makes it obey colors.
pub const ENABLE_VIRTUAL_TERMINAL_PROCESSING: u32 = 0x0004;

/// The line that tells of a task.
pub open spec fn task_line(id: Seq<char>, method: Seq<char>, params: Seq<char>) -> Seq<char> {
    COLOR_CYAN@ + "[verbose]"@ + COLOR_RESET@ + " task received  "@ + COLOR_GREEN@ + "method"@
        + COLOR_RESET@ + "="@ + COLOR_YELLOW@ + method + COLOR_RESET@ + "  id="@ + id
        + "  params="@ + params
}

/// Writes the line that tells of a task.
pub fn write_task_line(id: &str, method: &str, params: &str) -> (line: String)
    ensures
        line@ == task_line(id@, method@, params@),
{
    let mut line = COLOR_CYAN.to_owned();
    line.append("[verbose]");
    line.append(COLOR_RESET);
    line.append(" task received  ");
    line.append(COLOR_GREEN);
    line.append("method");
    line.append(COLOR_RESET);
    line.append("=");
    line.append(COLOR_YELLOW);
    line.append(method);
    line.append(COLOR_RESET);
    line.append("  id=");
    line.append(id);
    line.append("  params=");
    line.append(params);
    line
}

/// What is shown of parameters that may be missing.
pub open spec fn params_text(params: Option<Json>) -> Seq<char> {
    match params {
        Some(params) => crate::outside::json_display(params@),
        None => "null"@,
    }
}

/// The line that tells of a task, where tasks are told of.
pub fn log_task_verbose(
    verbose: bool,
    id: &Json,
    method: &str,
    params: &Option<Json>,
) -> (line: Option<String>)
    ensures
        match line {
            Some(line) => verbose && line@ == task_line(
                crate::outside::json_display(id@),
                method@,
                params_text(*params),
            ),
            None => !verbose,
        },
{
    if !verbose {
        return None;
    }
    let params = match params {
        Some(params) => params.display(),
        None => "null".to_owned(),
    };
    Some(write_task_line(id.display().as_str(), method, params.as_str()))
}

/// The line that tells of a request, where requests are told of. A notification
/// has no id and is told of as one whose id is null.
pub fn log_request(verbose: bool, request: &JsonRpcRequest) -> (line: Option<String>)
    ensures
        match line {
            Some(line) => verbose && line@ == task_line(
                crate::outside::json_display(
                    match request.id {
                        Some(id) => id@,
                        None => crate::json::Tree::Null,
                    },
                ),
                request.method@,
                params_text(request.params),
            ),
            None => !verbose,
        },
{
    let null = Json::Null;
    let id = match &request.id {
        Some(id) => id,
        None => &null,
    };
    log_task_verbose(verbose, id, request.method.as_str(), &request.params)
}

/// The line that tells of a request handler that did not return.
pub open spec fn join_failure_line(panicked: bool, reason: Seq<char>) -> Seq<char> {
    if panicked {
        "mcp-shell-server: a request handler panicked: "@ + reason
    } else {
        "mcp-shell-server: a request handler was cancelled: "@ + reason
    }
}

/// Writes the line that tells of a request handler that did not return.
pub fn log_join_result(panicked: bool, reason: &str) -> (line: String)
    ensures
        line@ == join_failure_line(panicked, reason@),
{
    let mut line = if panicked {
        "mcp-shell-server: a request handler panicked: ".to_owned()
    } else {
        "mcp-shell-server: a request handler was cancelled: ".to_owned()
    };
    line.append(reason);
    line
}

/// The mode to give a Windows console so that it obeys colors: its own with
/// one more bit. A console that is not there, or that tells no mode, is left
/// alone.
pub fn ansi_console_mode(attached: bool, mode: Option<u32>) -> (new_mode: Option<u32>)
    ensures
        match new_mode {
            Some(new_mode) => attached && (mode matches Some(mode) && new_mode == mode
                | ENABLE_VIRTUAL_TERMINAL_PROCESSING),
            None => !attached || mode is None,
        },
{
    match mode {
        Some(mode) => if attached {
            Some(mode | ENABLE_VIRTUAL_TERMINAL_PROCESSING)
        } else {
            None
        },
        None => None,
    }
}

/// The line on a task holds its method, its id and its parameters, each as it is
/// and behind its own label, with the method in color.
pub proof fn law_task_line(id: Seq<char>, method: Seq<char>, params: Seq<char>)
    ensures
        task_line(id, method, params)
            == "\x1b[36m[verbose]\x1b[0m task received  \x1b[32mmethod\x1b[0m=\x1b[33m"@ + method
            + "\x1b[0m  id="@ + id + "  params="@ + params,
{
    reveal_strlit("\x1b[0m");
    reveal_strlit("\x1b[36m");
    reveal_strlit("\x1b[33m");
    reveal_strlit("\x1b[32m");
    reveal_strlit("[verbose]");
    reveal_strlit(" task received  ");
    reveal_strlit("method");
    reveal_strlit("=");
    reveal_strlit("  id=");
    reveal_strlit("\x1b[0m  id=");
    reveal_strlit("\x1b[36m[verbose]\x1b[0m task received  \x1b[32mmethod\x1b[0m=\x1b[33m");
    let start = COLOR_CYAN@ + "[verbose]"@ + COLOR_RESET@ + " task received  "@ + COLOR_GREEN@
        + "method"@ + COLOR_RESET@ + "="@ + COLOR_YELLOW@;
    assert(start
        =~= "\x1b[36m[verbose]\x1b[0m task received  \x1b[32mmethod\x1b[0m=\x1b[33m"@);
    assert(COLOR_RESET@ + "  id="@ =~= "\x1b[0m  id="@);
    assert(task_line(id, method, params) =~= start + method + (COLOR_RESET@ + "  id="@) + id
        + "  params="@ + params);
}

/// Parameters are shown whole, and as null where there are none.
pub proof fn law_params_text(params: Json)
    ensures
        params_text(Some(params)) == crate::outside::json_display(params@),
        params_text(None) == "null"@,
{
}

/// A handler that did not return is told of with the reason, and one that panicked
/// is told from one that was cancelled.
pub proof fn law_join_failure_line(panicked: bool, reason: Seq<char>)
    ensures
        ({
            let text = join_failure_line(panicked, reason);
            &&& text.take(36) == "mcp-shell-server: a request handler "@
            &&& text.skip(text.len() - reason.len()) == reason
            &&& panicked ==> text.subrange(36, text.len() - reason.len()) == "panicked: "@
            &&& !panicked ==> text.subrange(36, text.len() - reason.len()) == "was cancelled: "@
        }),
{
    reveal_strlit("mcp-shell-server: a request handler ");
    reveal_strlit("panicked: ");
    reveal_strlit("was cancelled: ");
    reveal_strlit("mcp-shell-server: a request handler panicked: ");
    reveal_strlit("mcp-shell-server: a request handler was cancelled: ");
    let text = join_failure_line(panicked, reason);
    assert(text.take(36) =~= "mcp-shell-server: a request handler "@);
    assert(text.skip(text.len() - reason.len()) =~= reason);
    if panicked {
        assert(text.subrange(36, text.len() - reason.len()) =~= "panicked: "@);
    } else {
        assert(text.subrange(36, text.len() - reason.len()) =~= "was cancelled: "@);
    }
}

} // verus!
