use mcp_shell_server::tools::{is_known_tool, known_tools, parse_tools};

#[test]
fn parse_tools_accepts_known_names_and_trims_whitespace() {
    let tools = parse_tools(Some(" bash_exec, bash_exec_async ")).unwrap();
    assert_eq!(tools, vec!["bash_exec", "bash_exec_async"]);
}

#[test]
fn parse_tools_absent_or_empty_means_nothing_exposed() {
    assert_eq!(parse_tools(None).unwrap(), Vec::<String>::new());
    assert_eq!(parse_tools(Some("")).unwrap(), Vec::<String>::new());
}

#[test]
fn parse_tools_rejects_unknown_names() {
    assert!(parse_tools(Some("bash_exec,not_a_real_tool")).is_err());
}

#[test]
fn the_first_unknown_name_is_refused_with_a_message() {
    let e = parse_tools(Some("bash_exec, rm ,also_not")).unwrap_err();
    assert_eq!(e.name, "rm");
    assert_eq!(
        e.message(),
        "unknown tool 'rm' in --tools (known tools: bash_exec, bash_exec_async, bash_job_status)"
    );
}

#[test]
fn empty_names_are_passed_over() {
    assert_eq!(parse_tools(Some(" , ,bash_job_status,,")).unwrap(), vec!["bash_job_status"]);
    assert_eq!(parse_tools(Some(" \u{3000}\t")).unwrap(), Vec::<String>::new());
}

#[test]
fn names_are_read_back_from_a_joined_list() {
    let names = known_tools();
    assert_eq!(names, vec!["bash_exec", "bash_exec_async", "bash_job_status"]);
    assert_eq!(parse_tools(Some(&names.join(","))).unwrap(), names);
}

#[test]
fn names_are_told_apart_by_case_and_length() {
    assert!(is_known_tool("bash_exec"));
    assert!(!is_known_tool("bash_exe"));
    assert!(!is_known_tool("bash_exec_"));
    assert!(!is_known_tool("Bash_exec"));
    assert!(!is_known_tool(""));
}
