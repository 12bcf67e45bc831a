//! The command line: what the server is asked to be.

use vstd::prelude::*;
use vstd::string::*;

use crate::registration::Node;
use crate::text::{join, same_text};
use crate::tools::{known_tools, parse_tools, UnknownTool};

verus! {

/// The start of the help, up to the version.
pub const HELP_NAME: &'static str = "mcp-shell-server ";

/// The help from the version to the names of the tools.
pub const HELP_USAGE: &'static str = r#" -- runs shell commands on behalf of an MCP client

USAGE:
    mcp-shell-server [OPTIONS]

Two mutually exclusive modes, chosen by whether --node-id/--dispatcher
are given:

  stdio mode (default, no flags required):
    Reads JSON-RPC requests from stdin, writes responses to stdout. This
    is how a local mcp-proxy spawns this binary as a child process.

  registration mode (--node-id and --dispatcher together):
    Dials out to a dispatcher (mcp-proxy) over TCP, registers as a named
    node, and serves requests over that connection instead of stdio.
    Reconnects with backoff on a dropped connection, but gives up after
    5 consecutive failed connection attempts rather than retrying forever.

OPTIONS:
    -h, --help
            Print this help and exit.

    --node-id <ID>
            This node's identifier, as it will appear to dispatcher
            clients (registration mode). Required together with
            --dispatcher.
            Example: --node-id gpu-worker-01

    --dispatcher <HOST:PORT>
            Address of the mcp-proxy dispatcher to register with
            (registration mode). Required together with --node-id.
            Example: --dispatcher seoul.ddns.edux.dev:8383

    --token <TOKEN>
            Registration auth token. Can be given here or via the
            MCP_SHELL_TOKEN environment variable instead (useful so the
            token doesn't show up in `ps`). Required in registration mode.
            Example: --token hi.com9981
            Example: MCP_SHELL_TOKEN=hi.com9981 mcp-shell-server --node-id gpu-worker-01 --dispatcher seoul.ddns.edux.dev:8383

    --user <USER>
            The person this node belongs to (protocol v3). Can be given
            here or via MCP_SHELL_USER instead. Required in registration
            mode.
            Example: --user haogle

    --pwd <PWD>
            Password identifying --user (protocol v3). Can be given here
            or via MCP_SHELL_PWD instead. Required in registration mode.
            Example: --pwd abc.com998

    --tools <NAME,NAME,...>
            Comma-separated subset of the tools this node exposes.
            Unknown names are rejected at startup rather than accepted
            and failing later. Omit or pass "" to register online but
            expose nothing.
            Known tools: "#;

/// The help after the names of the tools.
pub const HELP_EXAMPLES: &'static str = r#"
            Example: --tools bash_exec,bash_exec_async,bash_job_status

    --verbose
            Print every received task (method, id, params) to stderr in
            color as it comes in. Works in both stdio and registration
            mode, and on both Linux and Windows consoles.
            Example: mcp-shell-server --verbose

EXAMPLES:
    # Local stdio mode, spawned by mcp-proxy:
    mcp-shell-server

    # Register with a dispatcher, exposing all tools, verbose logging:
    mcp-shell-server --node-id gpu-worker-01 \
        --dispatcher seoul.ddns.edux.dev:8383 \
        --user haogle --pwd abc.com998 --token hi.com9981 \
        --tools bash_exec,bash_exec_async,bash_job_status \
        --verbose
"#;

/// The help.
pub open spec fn help(version: Seq<char>) -> Seq<char> {
    HELP_NAME@ + version + HELP_USAGE@ + crate::text::joined(
        crate::tools::known_tool_names(),
        ", "@,
    ) + HELP_EXAMPLES@
}

/// Writes the help.
pub fn print_help(version: &str) -> (text: String)
    ensures
        text@ == help(version@),
{
    let mut text = HELP_NAME.to_owned();
    text.append(version);
    text.append(HELP_USAGE);
    text.append(join(known_tools().as_slice(), ", ").as_str());
    text.append(HELP_EXAMPLES);
    text
}

/// Whether help is asked for.
pub open spec fn asks_for_help(args: Seq<Seq<char>>) -> bool {
    args.contains("--help"@) || args.contains("-h"@)
}

/// Whether help is asked for, anywhere on the command line and whatever else
/// stands there.
pub fn wants_help(args: &[String]) -> (wanted: bool)
    ensures
        wanted == asks_for_help(crate::text::texts(args@)),
{
    let ghost all = crate::text::texts(args@);
    let mut i: usize = 0;
    while i < args.len()
        invariant
            i <= args@.len(),
            all == crate::text::texts(args@),
            forall|j: int| 0 <= j < i ==> #[trigger] all[j] != "--help"@ && all[j] != "-h"@,
        decreases args@.len() - i,
    {
        assert(all[i as int] == args@[i as int]@);
        if same_text(args[i].as_str(), "--help") || same_text(args[i].as_str(), "-h") {
            return true;
        }
        i = i + 1;
    }
    false
}

/// Whether an option takes the argument after it for its value.
pub open spec fn takes_value(arg: Seq<char>) -> bool {
    ||| arg == "--node-id"@
    ||| arg == "--dispatcher"@
    ||| arg == "--token"@
    ||| arg == "--tools"@
    ||| arg == "--user"@
    ||| arg == "--pwd"@
}

/// Whether the argument at a place is read as an option: all are but the first,
/// which is the program's name, and the values of options.
pub open spec fn is_option_at(args: Seq<Seq<char>>, i: int) -> bool
    decreases i,
{
    &&& 1 <= i < args.len()
    &&& i > 1 ==> !(is_option_at(args, i - 1) && takes_value(args[i - 1]))
}

/// The value of an option among the first `n` arguments: what stands behind it
/// where it stands last, and nothing where the command line ends there.
pub open spec fn value_of(args: Seq<Seq<char>>, option: Seq<char>, n: int) -> Option<Seq<char>>
    decreases n,
{
    if n <= 1 {
        None
    } else if is_option_at(args, n - 1) && args[n - 1] == option {
        if n < args.len() {
            Some(args[n])
        } else {
            None
        }
    } else {
        value_of(args, option, n - 1)
    }
}

/// The options that are none, among the first `n` arguments.
pub open spec fn unknown_options(args: Seq<Seq<char>>, n: int) -> Seq<Seq<char>>
    decreases n,
{
    if n <= 1 {
        Seq::empty()
    } else if is_option_at(args, n - 1) && !takes_value(args[n - 1]) && args[n - 1]
        != "--verbose"@ {
        unknown_options(args, n - 1).push(args[n - 1])
    } else {
        unknown_options(args, n - 1)
    }
}

/// Whether `--verbose` is among the first `n` arguments, as an option.
pub open spec fn says_verbose(args: Seq<Seq<char>>, n: int) -> bool {
    exists|i: int| i < n && #[trigger] is_option_at(args, i) && args[i] == "--verbose"@
}

/// What the command line says.
#[derive(Debug, PartialEq, Eq)]
pub struct Options {
    pub node_id: Option<String>,
    pub dispatcher: Option<String>,
    pub token: Option<String>,
    pub tools: Option<String>,
    pub user: Option<String>,
    pub pwd: Option<String>,
    pub verbose: bool,
    /// The arguments that say nothing.
    pub ignored: Vec<String>,
}

/// A text that may be missing.
pub open spec fn opt_text(text: Option<String>) -> Option<Seq<char>> {
    match text {
        Some(text) => Some(text@),
        None => None,
    }
}

impl Options {
    /// These are the options among the first `n` arguments.
    pub open spec fn read(&self, args: Seq<Seq<char>>, n: int) -> bool {
        &&& opt_text(self.node_id) == value_of(args, "--node-id"@, n)
        &&& opt_text(self.dispatcher) == value_of(args, "--dispatcher"@, n)
        &&& opt_text(self.token) == value_of(args, "--token"@, n)
        &&& opt_text(self.tools) == value_of(args, "--tools"@, n)
        &&& opt_text(self.user) == value_of(args, "--user"@, n)
        &&& opt_text(self.pwd) == value_of(args, "--pwd"@, n)
        &&& self.verbose == says_verbose(args, n)
        &&& crate::text::texts(self.ignored@) == unknown_options(args, n)
    }
}

/// The options have different names.
proof fn lemma_names_differ()
    ensures
        "--node-id"@ != "--dispatcher"@,
        "--node-id"@ != "--token"@,
        "--node-id"@ != "--tools"@,
        "--node-id"@ != "--user"@,
        "--node-id"@ != "--pwd"@,
        "--dispatcher"@ != "--token"@,
        "--dispatcher"@ != "--tools"@,
        "--dispatcher"@ != "--user"@,
        "--dispatcher"@ != "--pwd"@,
        "--token"@ != "--tools"@,
        "--token"@ != "--user"@,
        "--token"@ != "--pwd"@,
        "--tools"@ != "--user"@,
        "--tools"@ != "--pwd"@,
        "--user"@ != "--pwd"@,
        !takes_value("--verbose"@),
{
    reveal_strlit("--node-id");
    reveal_strlit("--dispatcher");
    reveal_strlit("--token");
    reveal_strlit("--tools");
    reveal_strlit("--user");
    reveal_strlit("--pwd");
    reveal_strlit("--verbose");
    assert("--node-id"@[2] == 'n');
    assert("--dispatcher"@[2] == 'd');
    assert("--token"@[2] == 't' && "--token"@[4] == 'k');
    assert("--tools"@[2] == 't' && "--tools"@[4] == 'o');
    assert("--user"@[2] == 'u');
    assert("--pwd"@[2] == 'p');
    assert("--verbose"@[2] == 'v');
}

/// The value of an option says nothing itself.
proof fn lemma_value(args: Seq<Seq<char>>, i: int)
    requires
        is_option_at(args, i),
        takes_value(args[i]),
    ensures
        !is_option_at(args, i + 1),
        forall|option: Seq<char>|
            #![trigger value_of(args, option, i + 2)]
            value_of(args, option, i + 2) == value_of(args, option, i + 1),
        says_verbose(args, i + 2) == says_verbose(args, i + 1),
        unknown_options(args, i + 2) == unknown_options(args, i + 1),
{
    if says_verbose(args, i + 2) {
        let j = choose|j: int|
            j < i + 2 && #[trigger] is_option_at(args, j) && args[j] == "--verbose"@;
        assert(j != i + 1);
        assert(says_verbose(args, i + 1));
    }
    if says_verbose(args, i + 1) {
        let j = choose|j: int|
            j < i + 1 && #[trigger] is_option_at(args, j) && args[j] == "--verbose"@;
        assert(says_verbose(args, i + 2));
    }
}

/// Whether `--verbose` was said, after one more option.
proof fn lemma_verbose(args: Seq<Seq<char>>, i: int)
    requires
        is_option_at(args, i),
    ensures
        says_verbose(args, i + 1) == (says_verbose(args, i) || args[i] == "--verbose"@),
{
    if says_verbose(args, i) {
        let j = choose|j: int|
            j < i && #[trigger] is_option_at(args, j) && args[j] == "--verbose"@;
        assert(j < i + 1);
    }
}

/// The argument at a place, where there is one.
fn argument_at(args: &[String], i: usize) -> (value: Option<String>)
    ensures
        opt_text(value) == (if i < args@.len() {
            Some(args@[i as int]@)
        } else {
            None
        }),
{
    if i < args.len() {
        Some(args[i].clone())
    } else {
        None
    }
}

/// Reads the command line, which starts with the program's name.
pub fn parse_args(args: &[String]) -> (options: Options)
    ensures
        options.read(crate::text::texts(args@), args@.len() as int),
{
    let ghost all = crate::text::texts(args@);
    let mut options = Options {
        node_id: None,
        dispatcher: None,
        token: None,
        tools: None,
        user: None,
        pwd: None,
        verbose: false,
        ignored: Vec::new(),
    };
    assert(crate::text::texts(options.ignored@) =~= Seq::empty());
    if args.len() == 0 {
        return options;
    }
    let mut i: usize = 1;
    proof {
        lemma_names_differ();
        assert(options.read(all, 1));
    }
    while i < args.len()
        invariant
            args@.len() >= 1,
            1 <= i,
            all == crate::text::texts(args@),
            all.len() == args@.len(),
            i < args@.len() ==> is_option_at(all, i as int) && options.read(all, i as int),
            i >= args@.len() ==> options.read(all, args@.len() as int),
        decreases args@.len() - i,
    {
        let arg = args[i].as_str();
        assert(all[i as int] == arg@);
        let value = argument_at(args, i + 1);
        proof {
            lemma_names_differ();
            lemma_verbose(all, i as int);
            if takes_value(arg@) {
                lemma_value(all, i as int);
            }
            if i + 1 < all.len() {
                assert(all[i + 1] == args@[i + 1]@);
            }
        }
        let mut valued = true;
        if same_text(arg, "--node-id") {
            options.node_id = value;
        } else if same_text(arg, "--dispatcher") {
            options.dispatcher = value;
        } else if same_text(arg, "--token") {
            options.token = value;
        } else if same_text(arg, "--tools") {
            options.tools = value;
        } else if same_text(arg, "--user") {
            options.user = value;
        } else if same_text(arg, "--pwd") {
            options.pwd = value;
        } else {
            valued = false;
            if same_text(arg, "--verbose") {
                options.verbose = true;
            } else {
                let ghost before = crate::text::texts(options.ignored@);
                options.ignored.push(args[i].clone());
                assert(crate::text::texts(options.ignored@) == before.push(arg@));
            }
        }
        assert(options.read(all, i + 1));
        i = i + 1;
        if valued && i < args.len() {
            i = i + 1;
        }
    }
    options
}

/// What the server is to be.
#[derive(Debug, PartialEq, Eq)]
pub enum Mode {
    /// A child process that is spoken to over its standard streams.
    Stdio,
    /// A node that registers with a dispatcher.
    Registered(Node),
}

/// Why the server cannot be what it is asked to be.
#[derive(Debug, PartialEq, Eq)]
pub enum ConfigError {
    MissingToken,
    MissingUser,
    MissingPwd,
    UnknownTool(UnknownTool),
    /// One of `--node-id` and `--dispatcher` is missing.
    Unpaired,
}

/// What is said of an error.
pub open spec fn config_error_text(error: ConfigError) -> Seq<char> {
    match error {
        ConfigError::MissingToken => {
            "registration mode requires a token: pass --token or set MCP_SHELL_TOKEN"@
        },
        ConfigError::MissingUser => {
            "registration mode requires a user: pass --user or set MCP_SHELL_USER"@
        },
        ConfigError::MissingPwd => {
            "registration mode requires a pwd: pass --pwd or set MCP_SHELL_PWD"@
        },
        ConfigError::UnknownTool(unknown) => crate::tools::unknown_tool_message(unknown.name@),
        ConfigError::Unpaired => {
            "--node-id and --dispatcher must be given together to enable registration mode"@
        },
    }
}

impl ConfigError {
    /// What to tell the user.
    pub fn message(&self) -> (text: String)
        ensures
            text@ == config_error_text(*self),
    {
        match self {
            ConfigError::MissingToken => {
                "registration mode requires a token: pass --token or set MCP_SHELL_TOKEN".to_owned()
            },
            ConfigError::MissingUser => {
                "registration mode requires a user: pass --user or set MCP_SHELL_USER".to_owned()
            },
            ConfigError::MissingPwd => {
                "registration mode requires a pwd: pass --pwd or set MCP_SHELL_PWD".to_owned()
            },
            ConfigError::UnknownTool(unknown) => unknown.message(),
            ConfigError::Unpaired => {
                "--node-id and --dispatcher must be given together to enable registration mode".to_owned()
            },
        }
    }
}

/// The variables of the environment that stand in for options.
#[derive(Debug, PartialEq, Eq)]
pub struct Environment {
    pub token: Option<String>,
    pub user: Option<String>,
    pub pwd: Option<String>,
}

/// An option, or else the variable that stands in for it.
pub open spec fn either(option: Option<String>, variable: Option<String>) -> Option<Seq<char>> {
    match option {
        Some(text) => Some(text@),
        None => opt_text(variable),
    }
}

fn or_else(option: Option<String>, variable: Option<String>) -> (value: Option<String>)
    ensures
        opt_text(value) == either(option, variable),
{
    match option {
        Some(text) => Some(text),
        None => variable,
    }
}

/// What the options and the environment ask the server to be. A token, a user
/// and a password are needed to register, and they are asked for in this order,
/// before the tools are looked at.
pub open spec fn asked_for(
    options: Options,
    env: Environment,
    result: Result<Mode, ConfigError>,
) -> bool {
    let token = either(options.token, env.token);
    let user = either(options.user, env.user);
    let pwd = either(options.pwd, env.pwd);
    let tools = crate::tools::exposed(opt_text(options.tools));
    if options.node_id is None && options.dispatcher is None {
        result == Ok::<Mode, ConfigError>(Mode::Stdio)
    } else if options.node_id is None || options.dispatcher is None {
        result == Err::<Mode, ConfigError>(ConfigError::Unpaired)
    } else if token is None {
        result == Err::<Mode, ConfigError>(ConfigError::MissingToken)
    } else if user is None {
        result == Err::<Mode, ConfigError>(ConfigError::MissingUser)
    } else if pwd is None {
        result == Err::<Mode, ConfigError>(ConfigError::MissingPwd)
    } else if crate::tools::all_known(tools) {
        &&& result matches Ok(Mode::Registered(node))
        &&& opt_text(options.node_id) == Some(node.node_id@)
        &&& opt_text(options.dispatcher) == Some(node.dispatcher@)
        &&& token == Some(node.token@)
        &&& user == Some(node.user@)
        &&& pwd == Some(node.pwd@)
        &&& crate::text::texts(node.tools@) == tools
    } else {
        &&& result matches Err(ConfigError::UnknownTool(unknown))
        &&& crate::tools::is_first_unknown(tools, unknown.name@)
    }
}

/// Decides what the server is.
pub fn choose_mode(options: Options, env: Environment) -> (result: Result<Mode, ConfigError>)
    ensures
        asked_for(options, env, result),
{
    match (options.node_id, options.dispatcher) {
        (Some(node_id), Some(dispatcher)) => {
            let token = match or_else(options.token, env.token) {
                Some(token) => token,
                None => {
                    return Err(ConfigError::MissingToken);
                },
            };
            let user = match or_else(options.user, env.user) {
                Some(user) => user,
                None => {
                    return Err(ConfigError::MissingUser);
                },
            };
            let pwd = match or_else(options.pwd, env.pwd) {
                Some(pwd) => pwd,
                None => {
                    return Err(ConfigError::MissingPwd);
                },
            };
            let raw = match &options.tools {
                Some(list) => Some(list.as_str()),
                None => None,
            };
            assert(crate::tools::opt_view(raw) == opt_text(options.tools));
            match parse_tools(raw) {
                Ok(tools) => Ok(
                    Mode::Registered(Node { dispatcher, node_id, tools, token, user, pwd }),
                ),
                Err(unknown) => Err(ConfigError::UnknownTool(unknown)),
            }
        },
        (None, None) => Ok(Mode::Stdio),
        _ => Err(ConfigError::Unpaired),
    }
}

/// What is said of an argument that says nothing.
pub open spec fn ignored_text(arg: Seq<char>) -> Seq<char> {
    "mcp-shell-server: ignoring unknown argument '"@ + arg + "'"@
}

/// Writes what is said of an argument that says nothing.
pub fn write_ignored(arg: &str) -> (line: String)
    ensures
        line@ == ignored_text(arg@),
{
    let mut line = "mcp-shell-server: ignoring unknown argument '".to_owned();
    line.append(arg);
    line.append("'");
    line
}

/// Help is asked for exactly where one of its two names stands on the command
/// line, wherever that is.
pub proof fn law_asks_for_help(args: Seq<Seq<char>>)
    ensures
        asks_for_help(args) <==> exists|i: int|
            0 <= i < args.len() && (#[trigger] args[i] == "--help"@ || args[i] == "-h"@),
{
    if args.contains("--help"@) {
        let i = choose|i: int| 0 <= i < args.len() && args[i] == "--help"@;
        assert(args[i] == "--help"@);
    }
    if args.contains("-h"@) {
        let i = choose|i: int| 0 <= i < args.len() && args[i] == "-h"@;
        assert(args[i] == "-h"@);
    }
}

/// The help starts with the program's name and the version, and names all tools.
pub proof fn law_help(version: Seq<char>)
    ensures
        help(version) == "mcp-shell-server "@ + version + HELP_USAGE@
            + "bash_exec, bash_exec_async, bash_job_status"@ + HELP_EXAMPLES@,
{
    crate::tools::lemma_known_list();
}

/// The command line does not end in an option whose value is still to come.
pub open spec fn complete(args: Seq<Seq<char>>) -> bool {
    args.len() > 0 && !(is_option_at(args, args.len() - 1) && takes_value(args.last()))
}

/// Two texts are the same, or both are missing.
pub open spec fn same_value(a: Option<String>, b: Option<String>) -> bool {
    match (a, b) {
        (Some(a), Some(b)) => a@ == b@,
        (None, None) => true,
        _ => false,
    }
}

impl Options {
    /// What is known of the other options is what was known of them.
    pub open spec fn keeps_all_but(&self, before: Options, option: Seq<char>) -> bool {
        &&& option != "--node-id"@ ==> same_value(self.node_id, before.node_id)
        &&& option != "--dispatcher"@ ==> same_value(self.dispatcher, before.dispatcher)
        &&& option != "--token"@ ==> same_value(self.token, before.token)
        &&& option != "--tools"@ ==> same_value(self.tools, before.tools)
        &&& option != "--user"@ ==> same_value(self.user, before.user)
        &&& option != "--pwd"@ ==> same_value(self.pwd, before.pwd)
    }

    /// The value of one of the options that have one.
    pub open spec fn value(&self, option: Seq<char>) -> Option<String> {
        if option == "--node-id"@ {
            self.node_id
        } else if option == "--dispatcher"@ {
            self.dispatcher
        } else if option == "--token"@ {
            self.token
        } else if option == "--tools"@ {
            self.tools
        } else if option == "--user"@ {
            self.user
        } else {
            self.pwd
        }
    }
}

/// The options that have a value are these.
pub proof fn law_valued_options(arg: Seq<char>)
    ensures
        takes_value(arg) <==> seq![
            "--node-id"@,
            "--dispatcher"@,
            "--token"@,
            "--tools"@,
            "--user"@,
            "--pwd"@,
        ].contains(arg),
{
    let names = seq![
        "--node-id"@,
        "--dispatcher"@,
        "--token"@,
        "--tools"@,
        "--user"@,
        "--pwd"@,
    ];
    assert(names[0] == "--node-id"@ && names[1] == "--dispatcher"@ && names[2] == "--token"@);
    assert(names[3] == "--tools"@ && names[4] == "--user"@ && names[5] == "--pwd"@);
}

/// The program's name alone says nothing.
pub proof fn law_no_options(args: Seq<Seq<char>>, options: Options)
    requires
        args.len() <= 1,
        options.read(args, args.len() as int),
    ensures
        args.len() == 1 ==> complete(args),
        options.node_id is None,
        options.dispatcher is None,
        options.token is None,
        options.tools is None,
        options.user is None,
        options.pwd is None,
        !options.verbose,
        options.ignored@.len() == 0,
{
    if says_verbose(args, args.len() as int) {
        let i = choose|i: int|
            i < args.len() && #[trigger] is_option_at(args, i) && args[i] == "--verbose"@;
        assert(false);
    }
    crate::text::law_texts(options.ignored@);
}

/// An option with its value, behind whatever else was said, gives the option that
/// value, whatever the value looks like, and changes nothing else.
pub proof fn law_option_with_value(
    args: Seq<Seq<char>>,
    option: Seq<char>,
    value: Seq<char>,
    before: Options,
    after: Options,
)
    requires
        complete(args),
        takes_value(option),
        before.read(args, args.len() as int),
        after.read(args.push(option).push(value), args.len() as int + 2),
    ensures
        complete(args.push(option).push(value)),
        after.value(option) matches Some(text) && text@ == value,
        after.keeps_all_but(before, option),
        after.verbose == before.verbose,
        crate::text::texts(after.ignored@) == crate::text::texts(before.ignored@),
{
    let more = seq![option, value];
    let all = args.push(option).push(value);
    let n = args.len() as int;
    assert(all =~= args + more);
    lemma_names_differ();
    lemma_start_says(args, more);
    assert(all[n] == option && all[n + 1] == value);
    lemma_next_is_option(args, more);
    lemma_other_values(args, more);
    lemma_value(all, n);
    lemma_verbose(all, n);
    assert(all.last() == value);
}

/// An option behind which the command line ends has no value, and changes nothing
/// else.
pub proof fn law_option_without_value(
    args: Seq<Seq<char>>,
    option: Seq<char>,
    before: Options,
    after: Options,
)
    requires
        complete(args),
        takes_value(option),
        before.read(args, args.len() as int),
        after.read(args.push(option), args.len() as int + 1),
    ensures
        after.value(option) is None,
        after.keeps_all_but(before, option),
        after.verbose == before.verbose,
        crate::text::texts(after.ignored@) == crate::text::texts(before.ignored@),
{
    let more = seq![option];
    let all = args.push(option);
    let n = args.len() as int;
    assert(all =~= args + more);
    lemma_names_differ();
    lemma_start_says(args, more);
    assert(all[n] == option);
    lemma_next_is_option(args, more);
    lemma_other_values(args, more);
    lemma_verbose(all, n);
}

/// Any other argument is `--verbose`, or is ignored and told of; it changes
/// nothing else.
pub proof fn law_other_argument(
    args: Seq<Seq<char>>,
    arg: Seq<char>,
    before: Options,
    after: Options,
)
    requires
        complete(args),
        !takes_value(arg),
        before.read(args, args.len() as int),
        after.read(args.push(arg), args.len() as int + 1),
    ensures
        complete(args.push(arg)),
        after.verbose == (before.verbose || arg == "--verbose"@),
        crate::text::texts(after.ignored@) == (if arg == "--verbose"@ {
            crate::text::texts(before.ignored@)
        } else {
            crate::text::texts(before.ignored@).push(arg)
        }),
        same_value(after.node_id, before.node_id),
        same_value(after.dispatcher, before.dispatcher),
        same_value(after.token, before.token),
        same_value(after.tools, before.tools),
        same_value(after.user, before.user),
        same_value(after.pwd, before.pwd),
{
    let more = seq![arg];
    let all = args.push(arg);
    let n = args.len() as int;
    assert(all =~= args + more);
    lemma_names_differ();
    lemma_start_says(args, more);
    assert(all[n] == arg);
    lemma_next_is_option(args, more);
    lemma_other_values(args, more);
    lemma_verbose(all, n);
}

/// What follows a complete command line is read as an option.
proof fn lemma_next_is_option(args: Seq<Seq<char>>, more: Seq<Seq<char>>)
    requires
        complete(args),
        more.len() > 0,
    ensures
        is_option_at(args + more, args.len() as int),
{
    lemma_options_stay(args, more, args.len() - 1);
}

/// One more argument leaves the values of the options that it does not name.
proof fn lemma_other_values(args: Seq<Seq<char>>, more: Seq<Seq<char>>)
    requires
        complete(args),
        more.len() > 0,
    ensures
        forall|option: Seq<char>|
            takes_value(option) && option != more[0] ==> #[trigger] value_of(
                args + more,
                option,
                args.len() as int + 1,
            ) == value_of(args, option, args.len() as int),
{
    assert forall|option: Seq<char>| takes_value(option) && option != more[0] implies #[trigger] value_of(
        args + more,
        option,
        args.len() as int + 1,
    ) == value_of(args, option, args.len() as int) by {
        lemma_start_stays(args, more, option, args.len() as int);
        assert((args + more)[args.len() as int] == more[0]);
    }
}

/// What the start of a command line says without a value.
proof fn lemma_start_says(args: Seq<Seq<char>>, more: Seq<Seq<char>>)
    requires
        complete(args),
    ensures
        unknown_options(args + more, args.len() as int) == unknown_options(args, args.len() as int),
        says_verbose(args + more, args.len() as int) == says_verbose(args, args.len() as int),
{
    lemma_start_stays(args, more, "--pwd"@, args.len() as int);
}

/// More on the command line does not change what its start says.
proof fn lemma_start_stays(args: Seq<Seq<char>>, more: Seq<Seq<char>>, option: Seq<char>, n: int)
    requires
        0 <= n <= args.len(),
        takes_value(option),
    ensures
        n < args.len() ==> is_option_at(args + more, n) == is_option_at(args, n),
        n < args.len() || complete(args) ==> value_of(args + more, option, n)
            == value_of(args, option, n),
        unknown_options(args + more, n) == unknown_options(args, n),
        says_verbose(args + more, n) == says_verbose(args, n),
    decreases n,
{
    let all = args + more;
    if n > 0 {
        lemma_start_stays(args, more, option, n - 1);
        assert(all[n - 1] == args[n - 1]);
        if n < args.len() {
            assert(all[n] == args[n]);
        }
        if n == args.len() && complete(args) {
            assert(!(is_option_at(args, n - 1) && args[n - 1] == option));
        }
    }
    assert forall|i: int| 0 <= i < n implies #[trigger] is_option_at(all, i) == is_option_at(args, i)
        && all[i] == args[i] by {
        lemma_options_stay(args, more, i);
    }
    if says_verbose(all, n) {
        let i = choose|i: int| i < n && #[trigger] is_option_at(all, i) && all[i] == "--verbose"@;
        assert(is_option_at(args, i));
    }
    if says_verbose(args, n) {
        let i = choose|i: int| i < n && #[trigger] is_option_at(args, i) && args[i] == "--verbose"@;
        assert(is_option_at(all, i));
    }
}

proof fn lemma_options_stay(args: Seq<Seq<char>>, more: Seq<Seq<char>>, i: int)
    requires
        i < args.len(),
    ensures
        is_option_at(args + more, i) == is_option_at(args, i),
    decreases i,
{
    if i > 1 {
        lemma_options_stay(args, more, i - 1);
    }
}

/// The server registers exactly where it is told its own name and the
/// dispatcher's, and has a token, a user and a password; it is a child process
/// where it is told neither name. A node is what it was told to be: an option
/// counts before the variable that stands in for it, and an empty text counts.
pub proof fn law_mode(options: Options, env: Environment, result: Result<Mode, ConfigError>)
    requires
        asked_for(options, env, result),
    ensures
        result == Ok::<Mode, ConfigError>(Mode::Stdio) <==> options.node_id is None && options.dispatcher is None,
        result == Err::<Mode, ConfigError>(ConfigError::Unpaired) <==> (options.node_id is Some
            <==> options.dispatcher is None),
        options.node_id is Some && options.dispatcher is Some ==> {
            let token = options.token is Some || env.token is Some;
            let user = options.user is Some || env.user is Some;
            let pwd = options.pwd is Some || env.pwd is Some;
            &&& result == Err::<Mode, ConfigError>(ConfigError::MissingToken) <==> !token
            &&& result == Err::<Mode, ConfigError>(ConfigError::MissingUser) <==> token && !user
            &&& result == Err::<Mode, ConfigError>(ConfigError::MissingPwd) <==> token && user && !pwd
            &&& token && user && pwd ==> match result {
                Ok(Mode::Registered(_)) => true,
                Err(ConfigError::UnknownTool(_)) => true,
                _ => false,
            }
        },
        result matches Ok(Mode::Registered(node)) ==> {
            &&& options.node_id matches Some(text) && node.node_id@ == text@
            &&& options.dispatcher matches Some(text) && node.dispatcher@ == text@
            &&& options.token matches Some(text) ==> node.token@ == text@
            &&& options.token is None ==> (env.token matches Some(text) && node.token@ == text@)
            &&& options.user matches Some(text) ==> node.user@ == text@
            &&& options.user is None ==> (env.user matches Some(text) && node.user@ == text@)
            &&& options.pwd matches Some(text) ==> node.pwd@ == text@
            &&& options.pwd is None ==> (env.pwd matches Some(text) && node.pwd@ == text@)
            &&& options.tools is None ==> node.tools@.len() == 0
            &&& options.tools matches Some(list) ==> crate::text::texts(node.tools@)
                == crate::tools::exposed(Some(list@))
            &&& forall|i: int|
                0 <= i < node.tools@.len() ==> crate::tools::known_tool_names().contains(
                    (#[trigger] node.tools@[i])@,
                )
        },
        result matches Err(ConfigError::UnknownTool(unknown)) ==> {
            &&& options.tools matches Some(list)
            &&& crate::tools::exposed(Some(list@)).contains(unknown.name@)
            &&& !crate::tools::known_tool_names().contains(unknown.name@)
        },
{
    let names = crate::tools::exposed(opt_text(options.tools));
    if let Ok(Mode::Registered(node)) = result {
        crate::text::law_texts(node.tools@);
        assert forall|i: int| 0 <= i < node.tools@.len() implies crate::tools::known_tool_names().contains(
            (#[trigger] node.tools@[i])@,
        ) by {
            assert(names[i] == node.tools@[i]@);
        }
    }
    if let Err(ConfigError::UnknownTool(unknown)) = result {
        let i = choose|i: int| #[trigger]
            crate::tools::first_unknown_at(names, i) && names[i] == unknown.name@;
        assert(names[i] == unknown.name@);
    }
}

/// The tools that `--tools` lists on the command line are those, one for one and
/// in order, that the node tells the dispatcher of.
pub proof fn law_tools_are_registered(
    args: Seq<Seq<char>>,
    names: Seq<Seq<char>>,
    options: Options,
    env: Environment,
    node: Node,
)
    requires
        complete(args),
        crate::tools::all_known(names),
        options.read(
            args.push("--tools"@).push(crate::text::joined(names, seq![','])),
            args.len() as int + 2,
        ),
        asked_for(options, env, Ok(Mode::Registered(node))),
    ensures
        node.frame() matches crate::json::Tree::Object(members) && members.contains_key("tools"@)
            && (members["tools"@] matches crate::json::Tree::Array(items) && {
            &&& items.len() == names.len()
            &&& forall|i: int|
                0 <= i < names.len() ==> #[trigger] items[i] == crate::json::Tree::Str(names[i])
        }),
{
    let list = crate::text::joined(names, seq![',']);
    let all = args.push("--tools"@).push(list);
    let n = args.len() as int;
    let more = seq!["--tools"@, list];
    assert(all =~= args + more);
    assert(all[n] == "--tools"@ && all[n + 1] == list);
    lemma_next_is_option(args, more);
    lemma_value(all, n);
    assert(value_of(all, "--tools"@, n + 2) == value_of(all, "--tools"@, n + 1));
    assert(opt_text(options.tools) == Some(list));
    crate::tools::law_tools_read_back(names);
    crate::text::law_texts(node.tools@);
    crate::registration::law_frame(
        node.node_id@,
        node.tools@,
        node.token@,
        node.user@,
        node.pwd@,
    );
    assert forall|i: int| 0 <= i < names.len() implies #[trigger] crate::text::texts(
        node.tools@,
    )[i] == names[i] by {}
}

/// What is missing is named, with the option and the variable that give it.
pub proof fn law_config_error_text(unknown: UnknownTool)
    ensures
        config_error_text(ConfigError::MissingToken) == missing_text(
            "token"@,
            "--token"@,
            "MCP_SHELL_TOKEN"@,
        ),
        config_error_text(ConfigError::MissingUser) == missing_text(
            "user"@,
            "--user"@,
            "MCP_SHELL_USER"@,
        ),
        config_error_text(ConfigError::MissingPwd) == missing_text(
            "pwd"@,
            "--pwd"@,
            "MCP_SHELL_PWD"@,
        ),
        config_error_text(ConfigError::UnknownTool(unknown)) == "unknown tool '"@ + unknown.name@
            + "' in --tools (known tools: bash_exec, bash_exec_async, bash_job_status)"@,
        config_error_text(ConfigError::Unpaired)
            == "--node-id and --dispatcher must be given together to enable registration mode"@,
{
    crate::tools::law_unknown_tool_message(unknown.name@);
    reveal_strlit("registration mode requires a ");
    reveal_strlit(": pass ");
    reveal_strlit(" or set ");
    reveal_strlit("token");
    reveal_strlit("user");
    reveal_strlit("pwd");
    reveal_strlit("--token");
    reveal_strlit("--user");
    reveal_strlit("--pwd");
    reveal_strlit("MCP_SHELL_TOKEN");
    reveal_strlit("MCP_SHELL_USER");
    reveal_strlit("MCP_SHELL_PWD");
    reveal_strlit("registration mode requires a token: pass --token or set MCP_SHELL_TOKEN");
    reveal_strlit("registration mode requires a user: pass --user or set MCP_SHELL_USER");
    reveal_strlit("registration mode requires a pwd: pass --pwd or set MCP_SHELL_PWD");
    assert(config_error_text(ConfigError::MissingToken) =~= missing_text(
        "token"@,
        "--token"@,
        "MCP_SHELL_TOKEN"@,
    ));
    assert(config_error_text(ConfigError::MissingUser) =~= missing_text(
        "user"@,
        "--user"@,
        "MCP_SHELL_USER"@,
    ));
    assert(config_error_text(ConfigError::MissingPwd) =~= missing_text(
        "pwd"@,
        "--pwd"@,
        "MCP_SHELL_PWD"@,
    ));
}

/// What is said of something that a node needs and does not have.
pub open spec fn missing_text(what: Seq<char>, option: Seq<char>, variable: Seq<char>) -> Seq<
    char,
> {
    "registration mode requires a "@ + what + ": pass "@ + option + " or set "@ + variable
}

/// The argument that says nothing is told as it was given, in quotes.
pub proof fn law_ignored_text(arg: Seq<char>)
    ensures
        ignored_text(arg).len() == arg.len() + 46,
        ignored_text(arg).take(45) == "mcp-shell-server: ignoring unknown argument '"@,
        ignored_text(arg).skip(45) == arg.push('\''),
{
    reveal_strlit("mcp-shell-server: ignoring unknown argument '");
    reveal_strlit("'");
    assert(ignored_text(arg).take(45) =~= "mcp-shell-server: ignoring unknown argument '"@);
    assert(ignored_text(arg).skip(45) =~= arg.push('\''));
}

} // verus!
