use mcp_shell_server::args::{
    choose_mode, parse_args, print_help, wants_help, write_ignored, ConfigError, Environment,
    Mode, Options,
};
use mcp_shell_server::registration::Node;
use mcp_shell_server::tools::UnknownTool;

fn strings(args: &[&str]) -> Vec<String> {
    args.iter().map(|arg| arg.to_string()).collect()
}

fn options(args: &[&str]) -> Options {
    parse_args(&strings(args))
}

fn no_env() -> Environment {
    Environment { token: None, user: None, pwd: None }
}

fn some(text: &str) -> Option<String> {
    Some(text.to_string())
}

#[test]
fn help_is_asked_for_anywhere() {
    assert!(wants_help(&strings(&["server", "--token", "--help"])));
    assert!(wants_help(&strings(&["server", "-h"])));
    assert!(!wants_help(&strings(&["server", "--helpful", "-v"])));
    assert!(!wants_help(&[]));
}

#[test]
fn help_names_the_version_and_the_tools() {
    let help = print_help("9.9");
    assert!(help.starts_with(
        "mcp-shell-server 9.9 -- runs shell commands on behalf of an MCP client\n\nUSAGE:\n"
    ));
    assert!(help.contains(
        "            Known tools: bash_exec, bash_exec_async, bash_job_status\n            Example:"
    ));
    assert!(help.ends_with(
        "        --tools bash_exec,bash_exec_async,bash_job_status \\\n        --verbose\n"
    ));
}

#[test]
fn options_are_read_with_their_values() {
    let read = options(&[
        "server", "--node-id", "n", "--dispatcher", "h:1", "--token", "t", "--tools", "x", "--user",
        "u", "--pwd", "p", "--verbose",
    ]);
    let expected = Options {
        node_id: some("n"),
        dispatcher: some("h:1"),
        token: some("t"),
        tools: some("x"),
        user: some("u"),
        pwd: some("p"),
        verbose: true,
        ignored: vec![],
    };
    assert_eq!(read, expected);
}

#[test]
fn a_value_is_taken_whatever_it_looks_like() {
    let read = options(&["server", "--token", "--verbose", "x", "--user", "--pwd", "y"]);
    assert_eq!(read.token, some("--verbose"));
    assert!(!read.verbose);
    assert_eq!(read.user, some("--pwd"));
    assert_eq!(read.pwd, None);
    assert_eq!(read.ignored, vec!["x", "y"]);
    assert_eq!(write_ignored("x"), "mcp-shell-server: ignoring unknown argument 'x'");
}

#[test]
fn the_last_value_counts_and_a_missing_one_takes_it_back() {
    assert_eq!(options(&["server", "--token", "a", "--token", "b"]).token, some("b"));
    assert_eq!(options(&["server", "--token", "a", "--token"]).token, None);
    assert_eq!(options(&["--token", "a"]).token, None);
    assert_eq!(options(&[]).token, None);
}

#[test]
fn without_options_the_server_is_a_child_process() {
    assert_eq!(choose_mode(options(&["server"]), no_env()), Ok(Mode::Stdio));
    let unused = options(&["server", "--tools", "not_a_tool"]);
    assert_eq!(choose_mode(unused, no_env()), Ok(Mode::Stdio));
}

#[test]
fn a_node_needs_a_dispatcher_and_a_dispatcher_a_node() {
    for flag in ["--node-id", "--dispatcher"] {
        let result = choose_mode(options(&["server", flag, "x"]), no_env());
        assert_eq!(result, Err(ConfigError::Unpaired));
    }
}

#[test]
fn credentials_come_from_options_or_else_from_the_environment() {
    let base = ["server", "--node-id", "n", "--dispatcher", "h:1"];
    let env = |token, user, pwd| Environment { token, user, pwd };
    let none = choose_mode(options(&base), no_env());
    assert_eq!(none, Err(ConfigError::MissingToken));
    let token = choose_mode(options(&base), env(some("t"), None, None));
    assert_eq!(token, Err(ConfigError::MissingUser));
    let user = choose_mode(options(&base), env(some("t"), some("u"), None));
    assert_eq!(user, Err(ConfigError::MissingPwd));
    let mut args = base.to_vec();
    args.extend(["--token", "own", "--tools", "bash_exec"]);
    let all = choose_mode(options(&args), env(some("t"), some("u"), some("p")));
    let node = Node {
        dispatcher: "h:1".to_string(),
        node_id: "n".to_string(),
        tools: vec!["bash_exec".to_string()],
        token: "own".to_string(),
        user: "u".to_string(),
        pwd: "p".to_string(),
    };
    assert_eq!(all, Ok(Mode::Registered(node)));
    let mut args = base.to_vec();
    args.extend(["--tools", "nope"]);
    let unknown = choose_mode(options(&args), env(some("t"), some("u"), some("p")));
    let name = "nope".to_string();
    assert_eq!(unknown, Err(ConfigError::UnknownTool(UnknownTool { name })));
}

#[test]
fn configuration_errors_are_told_in_words() {
    assert_eq!(
        ConfigError::MissingToken.message(),
        "registration mode requires a token: pass --token or set MCP_SHELL_TOKEN"
    );
    assert_eq!(
        ConfigError::MissingUser.message(),
        "registration mode requires a user: pass --user or set MCP_SHELL_USER"
    );
    assert_eq!(
        ConfigError::MissingPwd.message(),
        "registration mode requires a pwd: pass --pwd or set MCP_SHELL_PWD"
    );
    assert_eq!(
        ConfigError::Unpaired.message(),
        "--node-id and --dispatcher must be given together to enable registration mode"
    );
    let unknown = UnknownTool { name: "x".to_string() };
    assert_eq!(
        ConfigError::UnknownTool(unknown).message(),
        "unknown tool 'x' in --tools (known tools: bash_exec, bash_exec_async, bash_job_status)"
    );
}
