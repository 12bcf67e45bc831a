# mcp-shell-server

A server that runs shell commands for clients that speak JSON-RPC, over its
standard streams or as a node that registers with a dispatcher.

`src/` is the library: what a request is answered, how a command's run goes on,
which jobs there are, how a node registers and when it tries again, and what the
command line means. Verus verifies it, but for what it takes for granted: the
contracts of the calls into `serde_json`, which stand in `outside`, and of two
functions of the standard library, one in `output` and one in `text`. Where the
server waits for the outside world, the library is a state machine: it names the
next action and is told what happened.

`app/` is the program around it. It holds the streams, processes and sockets, and
performs the actions.

| module         | what it decides                                        |
|----------------|--------------------------------------------------------|
| `args`         | the command line, the help, and the mode               |
| `catalog`      | what a client is told of the server and its tools      |
| `command`      | how a shell command is run and cleared away            |
| `console`      | the lines on the console                               |
| `jobs`         | background jobs                                        |
| `json`         | JSON documents as plain values                         |
| `output`       | how much of a command's output is kept                 |
| `outside`      | what is taken for granted of `serde_json`              |
| `registration` | the registration with a dispatcher, and its repetition |
| `rpc`          | requests and responses                                 |
| `serve`        | the loop that takes in requests                        |
| `text`         | trimming, splitting, joining, decimal numbers          |
| `tools`        | the tools, and the choice of those to expose           |
