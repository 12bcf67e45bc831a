//! What the server tells of itself: its name, and its tools with their schemas.

use vstd::prelude::*;

use crate::json::{Json, Tree};

verus! {

/// What a client is told when it connects.
pub open spec fn initialize_result() -> Tree {
    Tree::Object(
        map![
            "protocolVersion"@ => Tree::Str("2025-11-25"@),
            "capabilities"@ => Tree::Object(map!["tools"@ => Tree::Object(map![])]),
            "serverInfo"@ => Tree::Object(
                map![
                    "name"@ => Tree::Str("rust-mcp-shell"@),
                    "version"@ => Tree::Str("0.1.0"@),
                ],
            ),
        ],
    )
}

/// Builds what a client is told when it connects.
pub fn initialize_json() -> (json: Json)
    ensures
        json@ == initialize_result(),
{
    let capabilities = Json::object().with("tools", Json::object());
    let server = Json::object().with("name", Json::string("rust-mcp-shell")).with(
        "version",
        Json::string("0.1.0"),
    );
    Json::object().with("protocolVersion", Json::string("2025-11-25")).with(
        "capabilities",
        capabilities,
    ).with("serverInfo", server)
}

/// A schema that asks for a type.
pub open spec fn type_schema(name: Seq<char>) -> Tree {
    Tree::Object(map!["type"@ => Tree::Str(name)])
}

/// A schema that asks for an object in which some properties must be there.
pub open spec fn object_schema(properties: Map<Seq<char>, Tree>, required: Seq<Tree>) -> Tree {
    Tree::Object(
        map![
            "type"@ => Tree::Str("object"@),
            "properties"@ => Tree::Object(properties),
            "required"@ => Tree::Array(required),
        ],
    )
}

/// What a client is told of the tool that runs a command.
pub open spec fn bash_exec_description() -> Tree {
    Tree::Object(
        map![
            "name"@ => Tree::Str("bash_exec"@),
            "description"@ => Tree::Str("Execute a bash command safely on the host"@),
            "inputSchema"@ => object_schema(
                map![
                    "command"@ => Tree::Object(
                        map![
                            "type"@ => Tree::Str("string"@),
                            "description"@ => Tree::Str("The shell command to be executed"@),
                        ],
                    ),
                ],
                seq![Tree::Str("command"@)],
            ),
            "outputSchema"@ => object_schema(
                map![
                    "exit_code"@ => type_schema("integer"@),
                    "stdout"@ => type_schema("string"@),
                    "stderr"@ => type_schema("string"@),
                ],
                seq![Tree::Str("exit_code"@), Tree::Str("stdout"@), Tree::Str("stderr"@)],
            ),
        ],
    )
}

/// What a client is told of the tool that runs a command in the background.
pub open spec fn bash_exec_async_description() -> Tree {
    Tree::Object(
        map![
            "name"@ => Tree::Str("bash_exec_async"@),
            "description"@ => Tree::Str(
                "Start a bash command in the background and return immediately with a job_id"@,
            ),
            "inputSchema"@ => object_schema(
                map!["command"@ => type_schema("string"@)],
                seq![Tree::Str("command"@)],
            ),
        ],
    )
}

/// What a client is told of the tool that reports on a background job.
pub open spec fn bash_job_status_description() -> Tree {
    Tree::Object(
        map![
            "name"@ => Tree::Str("bash_job_status"@),
            "description"@ => Tree::Str("Get the status and output of a background bash job"@),
            "inputSchema"@ => object_schema(
                map!["job_id"@ => type_schema("string"@)],
                seq![Tree::Str("job_id"@)],
            ),
        ],
    )
}

/// What a client is told of the tools.
pub open spec fn tool_list_result() -> Tree {
    Tree::Object(
        map![
            "tools"@ => Tree::Array(
                seq![
                    bash_exec_description(),
                    bash_exec_async_description(),
                    bash_job_status_description(),
                ],
            ),
        ],
    )
}

fn type_schema_json(name: &str) -> (json: Json)
    ensures
        json@ == type_schema(name@),
{
    Json::object().with("type", Json::string(name))
}

fn object_schema_json(properties: Json, required: Json) -> (json: Json)
    requires
        properties is Object,
        required is Array,
    ensures
        json@ == object_schema(properties@->Object_0, required@->Array_0),
{
    Json::object().with("type", Json::string("object")).with("properties", properties).with(
        "required",
        required,
    )
}

fn bash_exec_json() -> (json: Json)
    ensures
        json@ == bash_exec_description(),
{
    let command = Json::object().with("type", Json::string("string")).with(
        "description",
        Json::string("The shell command to be executed"),
    );
    let input = object_schema_json(
        Json::object().with("command", command),
        Json::array().and(Json::string("command")),
    );
    let required = Json::array().and(Json::string("exit_code")).and(Json::string("stdout")).and(
        Json::string("stderr"),
    );
    assert(required@->Array_0 =~= seq![
        Tree::Str("exit_code"@),
        Tree::Str("stdout"@),
        Tree::Str("stderr"@),
    ]);
    let output = object_schema_json(
        Json::object().with("exit_code", type_schema_json("integer")).with(
            "stdout",
            type_schema_json("string"),
        ).with("stderr", type_schema_json("string")),
        required,
    );
    Json::object().with("name", Json::string("bash_exec")).with(
        "description",
        Json::string("Execute a bash command safely on the host"),
    ).with("inputSchema", input).with("outputSchema", output)
}

fn bash_exec_async_json() -> (json: Json)
    ensures
        json@ == bash_exec_async_description(),
{
    let input = object_schema_json(
        Json::object().with("command", type_schema_json("string")),
        Json::array().and(Json::string("command")),
    );
    Json::object().with("name", Json::string("bash_exec_async")).with(
        "description",
        Json::string(
            "Start a bash command in the background and return immediately with a job_id",
        ),
    ).with("inputSchema", input)
}

fn bash_job_status_json() -> (json: Json)
    ensures
        json@ == bash_job_status_description(),
{
    let input = object_schema_json(
        Json::object().with("job_id", type_schema_json("string")),
        Json::array().and(Json::string("job_id")),
    );
    Json::object().with("name", Json::string("bash_job_status")).with(
        "description",
        Json::string("Get the status and output of a background bash job"),
    ).with("inputSchema", input)
}

/// Builds what a client is told of the tools.
pub fn tool_list_json() -> (json: Json)
    ensures
        json@ == tool_list_result(),
{
    let tools = Json::array().and(bash_exec_json()).and(bash_exec_async_json()).and(
        bash_job_status_json(),
    );
    assert(tools@->Array_0 =~= seq![
        bash_exec_description(),
        bash_exec_async_description(),
        bash_job_status_description(),
    ]);
    Json::object().with("tools", tools)
}

/// The tools that a client is told of are those that there are, in order.
pub proof fn law_lists_known_tools()
    ensures
        match tool_list_result().member("tools"@) {
            Some(Tree::Array(tools)) => {
                &&& tools.len() == crate::tools::known_tool_names().len()
                &&& forall|i: int|
                    0 <= i < tools.len() ==> (#[trigger] tools[i]).text_of("name"@) == Some(
                        crate::tools::known_tool_names()[i],
                    )
            },
            _ => false,
        },
{
    reveal_strlit("name");
    reveal_strlit("description");
    reveal_strlit("inputSchema");
    reveal_strlit("outputSchema");
    assert("name"@.len() == 4);
    assert("description"@.len() == 11);
    assert("inputSchema"@.len() == 11);
    assert("outputSchema"@.len() == 12);
    let tools = tool_list_result().member("tools"@)->Some_0->Array_0;
    assert(tools[0].text_of("name"@) == Some("bash_exec"@));
    assert(tools[1].text_of("name"@) == Some("bash_exec_async"@));
    assert(tools[2].text_of("name"@) == Some("bash_job_status"@));
}

/// The schema asks for an object with one property, which is a text and must be
/// there.
pub open spec fn asks_for_text(schema: Tree, key: Seq<char>) -> bool {
    &&& schema matches Tree::Object(members)
    &&& members.dom() == set!["type"@, "properties"@, "required"@]
    &&& members["type"@] == Tree::Str("object"@)
    &&& members["required"@] matches Tree::Array(required)
    &&& required.len() == 1
    &&& required[0] == Tree::Str(key)
    &&& members["properties"@] matches Tree::Object(properties)
    &&& properties.dom() == set![key]
    &&& properties[key] matches Tree::Object(property)
    &&& property.contains_key("type"@)
    &&& property["type"@] == Tree::Str("string"@)
}

/// The keys of what is told of a tool are different.
proof fn lemma_keys()
    ensures
        "name"@ != "description"@,
        "name"@ != "inputSchema"@,
        "name"@ != "outputSchema"@,
        "description"@ != "inputSchema"@,
        "description"@ != "outputSchema"@,
        "inputSchema"@ != "outputSchema"@,
        "type"@ != "properties"@,
        "type"@ != "required"@,
        "type"@ != "description"@,
        "properties"@ != "required"@,
        "exit_code"@ != "stdout"@,
        "exit_code"@ != "stderr"@,
        "stdout"@ != "stderr"@,
        "protocolVersion"@ != "capabilities"@,
        "protocolVersion"@ != "serverInfo"@,
        "capabilities"@ != "serverInfo"@,
        "name"@ != "version"@,
{
    reveal_strlit("name");
    reveal_strlit("description");
    reveal_strlit("inputSchema");
    reveal_strlit("outputSchema");
    reveal_strlit("type");
    reveal_strlit("properties");
    reveal_strlit("required");
    reveal_strlit("exit_code");
    reveal_strlit("stdout");
    reveal_strlit("stderr");
    reveal_strlit("protocolVersion");
    reveal_strlit("capabilities");
    reveal_strlit("serverInfo");
    reveal_strlit("version");
    assert("name"@.len() == 4);
    assert("description"@[0] == 'd');
    assert("inputSchema"@[0] == 'i');
    assert("outputSchema"@[0] == 'o');
    assert("type"@[0] == 't');
    assert("properties"@[0] == 'p');
    assert("required"@[0] == 'r');
    assert("exit_code"@[0] == 'e');
    assert("stdout"@[3] == 'o');
    assert("stderr"@[3] == 'e');
    assert("protocolVersion"@[0] == 'p');
    assert("capabilities"@[0] == 'c');
    assert("serverInfo"@[0] == 's');
    assert("version"@.len() == 7);
}

/// A client is told of three tools. Each has its name, says what it does, and asks
/// for one text: the two that run a command ask for the command, and the one that
/// reports on a job asks for the job's name. The one that runs a command at once
/// says what comes of it.
pub proof fn law_tools_are_described()
    ensures
        tool_list_result() matches Tree::Object(listed) && listed.dom() == set!["tools"@]
            && (listed["tools"@] matches Tree::Array(tools) && tools.len() == 3 && (
        tools[0] matches Tree::Object(tool) && {
            &&& tool.dom() == set!["name"@, "description"@, "inputSchema"@, "outputSchema"@]
            &&& tool["name"@] == Tree::Str("bash_exec"@)
            &&& tool["description"@] == Tree::Str("Execute a bash command safely on the host"@)
            &&& asks_for_text(tool["inputSchema"@], "command"@)
            &&& tool["inputSchema"@].member("properties"@)->Some_0.member(
                "command"@,
            )->Some_0.text_of("description"@) == Some("The shell command to be executed"@)
            &&& tool["outputSchema"@] matches Tree::Object(output) && {
                &&& output.dom() == set!["type"@, "properties"@, "required"@]
                &&& output["type"@] == Tree::Str("object"@)
                &&& output["required"@] == Tree::Array(
                    seq![Tree::Str("exit_code"@), Tree::Str("stdout"@), Tree::Str("stderr"@)],
                )
                &&& output["properties"@] matches Tree::Object(properties) && {
                    &&& properties.dom() == set!["exit_code"@, "stdout"@, "stderr"@]
                    &&& properties["exit_code"@].text_of("type"@) == Some("integer"@)
                    &&& properties["stdout"@].text_of("type"@) == Some("string"@)
                    &&& properties["stderr"@].text_of("type"@) == Some("string"@)
                }
            }
        }) && (tools[1] matches Tree::Object(tool) && {
            &&& tool.dom() == set!["name"@, "description"@, "inputSchema"@]
            &&& tool["name"@] == Tree::Str("bash_exec_async"@)
            &&& tool["description"@] == Tree::Str(
                "Start a bash command in the background and return immediately with a job_id"@,
            )
            &&& asks_for_text(tool["inputSchema"@], "command"@)
        }) && (tools[2] matches Tree::Object(tool) && {
            &&& tool.dom() == set!["name"@, "description"@, "inputSchema"@]
            &&& tool["name"@] == Tree::Str("bash_job_status"@)
            &&& tool["description"@] == Tree::Str(
                "Get the status and output of a background bash job"@,
            )
            &&& asks_for_text(tool["inputSchema"@], "job_id"@)
        })),
{
    lemma_keys();
    let listed = tool_list_result()->Object_0;
    assert(listed.dom() =~= set!["tools"@]);
    let tools = listed["tools"@]->Array_0;
    let exec = tools[0]->Object_0;
    let background = tools[1]->Object_0;
    let status = tools[2]->Object_0;
    assert(exec.dom() =~= set!["name"@, "description"@, "inputSchema"@, "outputSchema"@]);
    assert(background.dom() =~= set!["name"@, "description"@, "inputSchema"@]);
    assert(status.dom() =~= set!["name"@, "description"@, "inputSchema"@]);
    let output = exec["outputSchema"@]->Object_0;
    assert(output.dom() =~= set!["type"@, "properties"@, "required"@]);
    assert(output["properties"@]->Object_0.dom() =~= set!["exit_code"@, "stdout"@, "stderr"@]);
    lemma_asks(exec["inputSchema"@], "command"@);
    lemma_asks(background["inputSchema"@], "command"@);
    lemma_asks(status["inputSchema"@], "job_id"@);
}

proof fn lemma_asks(schema: Tree, key: Seq<char>)
    requires
        exists|property: Tree|
            schema == #[trigger] object_schema(map![key => property], seq![Tree::Str(key)])
                && property.text_of("type"@) == Some("string"@),
    ensures
        asks_for_text(schema, key),
{
    lemma_keys();
    let members = schema->Object_0;
    assert(members.dom() =~= set!["type"@, "properties"@, "required"@]);
    assert(members["properties"@]->Object_0.dom() =~= set![key]);
}

/// A client that connects is told the version of the protocol, that there are
/// tools, and the server's name and version.
pub proof fn law_server_is_described()
    ensures
        initialize_result() matches Tree::Object(members) && {
            &&& members.dom() == set!["protocolVersion"@, "capabilities"@, "serverInfo"@]
            &&& members["protocolVersion"@] == Tree::Str("2025-11-25"@)
            &&& members["capabilities"@] matches Tree::Object(able) && able.dom() == set!["tools"@]
                && (able["tools"@] matches Tree::Object(none) && none.dom() == Set::<
                Seq<char>,
            >::empty())
            &&& members["serverInfo"@] matches Tree::Object(info) && {
                &&& info.dom() == set!["name"@, "version"@]
                &&& info["name"@] == Tree::Str("rust-mcp-shell"@)
                &&& info["version"@] == Tree::Str("0.1.0"@)
            }
        },
{
    lemma_keys();
    let members = initialize_result()->Object_0;
    assert(members.dom() =~= set!["protocolVersion"@, "capabilities"@, "serverInfo"@]);
    assert(members["capabilities"@]->Object_0.dom() =~= set!["tools"@]);
    assert(members["capabilities"@]->Object_0["tools"@]->Object_0.dom() =~= Set::empty());
    assert(members["serverInfo"@]->Object_0.dom() =~= set!["name"@, "version"@]);
}

} // verus!
