//! The agent's interactive terminal: what a typed line asks for, and what
//! each command does to the agent and answers.

use vstd::prelude::*;
use crate::json::{json_model, JsonModel, JsonValue};
use crate::mcp::agent::Agent;
use crate::mcp::types::{Message, MessageType, Priority};
use crate::text::{concat2, join, join_strings, owned, split_words, str_eq, strings_view, u64_to_string, decimal, words};
use crate::utils::error::{error_text, McpError, McpResult};

verus! {

/// What a typed line asks for.
#[derive(Debug, PartialEq, Eq)]
pub enum TerminalCommand {
    /// Nothing but white space was typed.
    Empty,
    /// The first word names no command.
    Unknown(String),
    /// Show the commands.
    Help,
    /// Leave the terminal (`exit` or `quit`).
    Exit,
    /// A command lacked arguments; the usage line to show.
    Usage(String),
    /// Connect to a server: its name and address.
    Connect(String, String),
    /// Disconnect from a server.
    Disconnect(String),
    /// List the connected servers.
    List,
    /// Send a message to a server: its name and the payload.
    Send(String, String),
    /// Run a function: its name and its argument text.
    Exec(String, String),
    /// Run a function and show each of its results: its name and argument text.
    Stream(String, String),
}

/// The outcome of a command.
#[derive(Debug, PartialEq, Eq)]
pub enum CommandResult {
    /// It succeeded, with a message.
    Success(String),
    /// It failed, with a message.
    Error(String),
    /// The terminal is to close.
    Exit,
}

/// The words after the first two, joined by single spaces: the payload of
/// `send` and the arguments of `exec` and `stream`.
pub open spec fn rest_text(ws: Seq<Seq<char>>) -> Seq<char> {
    join(ws.subrange(2, ws.len() as int), " "@)
}

/// `r` is what the typed line `line` asks for: its first word names the
/// command, the following words are the command's arguments.
pub open spec fn terminal_asks_for(line: Seq<char>, r: TerminalCommand) -> bool {
    let ws = words(line);
    if ws.len() == 0 {
        r is Empty
    } else if ws[0] == "help"@ {
        r is Help
    } else if ws[0] == "exit"@ || ws[0] == "quit"@ {
        r is Exit
    } else if ws[0] == "connect"@ {
        if ws.len() < 3 {
            r matches TerminalCommand::Usage(u) && u@ == "Usage: connect <id> <address>"@
        } else {
            r matches TerminalCommand::Connect(id, a) && id@ == ws[1] && a@ == ws[2]
        }
    } else if ws[0] == "disconnect"@ {
        if ws.len() < 2 {
            r matches TerminalCommand::Usage(u) && u@ == "Usage: disconnect <id>"@
        } else {
            r matches TerminalCommand::Disconnect(id) && id@ == ws[1]
        }
    } else if ws[0] == "list"@ {
        r is List
    } else if ws[0] == "send"@ {
        if ws.len() < 3 {
            r matches TerminalCommand::Usage(u) && u@ == "Usage: send <id> <payload>"@
        } else {
            r matches TerminalCommand::Send(id, p) && id@ == ws[1] && p@ == rest_text(ws)
        }
    } else if ws[0] == "exec"@ {
        if ws.len() < 3 {
            r matches TerminalCommand::Usage(u) && u@ == "Usage: exec <function> <args>"@
        } else {
            r matches TerminalCommand::Exec(f, a) && f@ == ws[1] && a@ == rest_text(ws)
        }
    } else if ws[0] == "stream"@ {
        if ws.len() < 3 {
            r matches TerminalCommand::Usage(u) && u@ == "Usage: stream <function> <args>"@
        } else {
            r matches TerminalCommand::Stream(f, a) && f@ == ws[1] && a@ == rest_text(ws)
        }
    } else {
        r matches TerminalCommand::Unknown(c) && c@ == ws[0]
    }
}

/// The words after the first two of `ws`, joined by single spaces.
fn rest_of(ws: &Vec<String>) -> (r: String)
    requires
        ws@.len() >= 2,
    ensures
        r@ == rest_text(strings_view(ws@)),
{
    let mut rest: Vec<String> = Vec::new();
    let mut i: usize = 2;
    while i < ws.len()
        invariant
            2 <= i <= ws@.len(),
            strings_view(rest@) == strings_view(ws@).subrange(2, i as int),
        decreases ws.len() - i,
    {
        let ghost before = rest@;
        let w = ws[i].clone();
        rest.push(w);
        assert(rest@ =~= before.push(w));
        assert(strings_view(rest@) =~= strings_view(before).push(w@));
        assert(strings_view(rest@) =~= strings_view(ws@).subrange(2, i + 1));
        i = i + 1;
    }
    join_strings(&rest, " ")
}

/// Reads a typed line.
pub fn parse_terminal_command(line: &str) -> (r: TerminalCommand)
    ensures
        terminal_asks_for(line@, r),
{
    let ws = split_words(line);
    if ws.len() == 0 {
        return TerminalCommand::Empty;
    }
    let first = ws[0].as_str();
    if str_eq(first, "help") {
        TerminalCommand::Help
    } else if str_eq(first, "exit") || str_eq(first, "quit") {
        TerminalCommand::Exit
    } else if str_eq(first, "connect") {
        if ws.len() < 3 {
            TerminalCommand::Usage(owned("Usage: connect <id> <address>"))
        } else {
            TerminalCommand::Connect(ws[1].clone(), ws[2].clone())
        }
    } else if str_eq(first, "disconnect") {
        if ws.len() < 2 {
            TerminalCommand::Usage(owned("Usage: disconnect <id>"))
        } else {
            TerminalCommand::Disconnect(ws[1].clone())
        }
    } else if str_eq(first, "list") {
        TerminalCommand::List
    } else if str_eq(first, "send") {
        if ws.len() < 3 {
            TerminalCommand::Usage(owned("Usage: send <id> <payload>"))
        } else {
            TerminalCommand::Send(ws[1].clone(), rest_of(&ws))
        }
    } else if str_eq(first, "exec") {
        if ws.len() < 3 {
            TerminalCommand::Usage(owned("Usage: exec <function> <args>"))
        } else {
            TerminalCommand::Exec(ws[1].clone(), rest_of(&ws))
        }
    } else if str_eq(first, "stream") {
        if ws.len() < 3 {
            TerminalCommand::Usage(owned("Usage: stream <function> <args>"))
        } else {
            TerminalCommand::Stream(ws[1].clone(), rest_of(&ws))
        }
    } else {
        TerminalCommand::Unknown(ws[0].clone())
    }
}

/// The text the `help` command shows.
pub open spec fn help_text_spec() -> Seq<char> {
    "\nAvailable commands:\n  help                    - Show this help message\n  connect <id> <address>  - Connect to a server with given ID and address\n  disconnect <id>         - Disconnect from a server\n  list                    - List connected servers\n  send <id> <payload>     - Send a message to a server\n  exec <function> <args>  - Execute a function with arguments\n  stream <function> <args> - Execute a function and stream results\n  exit, quit              - Exit the terminal\n"@
}

/// The text the `help` command shows.
pub fn help_text() -> (r: String)
    ensures
        r@ == help_text_spec(),
{
    owned("\nAvailable commands:\n  help                    - Show this help message\n  connect <id> <address>  - Connect to a server with given ID and address\n  disconnect <id>         - Disconnect from a server\n  list                    - List connected servers\n  send <id> <payload>     - Send a message to a server\n  exec <function> <args>  - Execute a function with arguments\n  stream <function> <args> - Execute a function and stream results\n  exit, quit              - Exit the terminal\n")
}

/// The line the terminal prints for the outcome of a command.
pub open spec fn report_text(r: CommandResult) -> Seq<char> {
    match r {
        CommandResult::Success(m) => "Success: "@ + m@,
        CommandResult::Error(e) => "Error: "@ + e@,
        CommandResult::Exit => "Exiting..."@,
    }
}

impl CommandResult {
    /// The line the terminal prints for this outcome.
    pub fn report(&self) -> (r: String)
        ensures
            r@ == report_text(*self),
    {
        match self {
            CommandResult::Success(m) => concat2("Success: ", m.as_str()),
            CommandResult::Error(e) => concat2("Error: ", e.as_str()),
            CommandResult::Exit => owned("Exiting..."),
        }
    }
}

/// What the terminal does with the outcome of a command: the result it keeps,
/// and the line it prints. An error raised by the command becomes an error
/// result with the error's text.
pub open spec fn concluded(outcome: McpResult<CommandResult>, r: (CommandResult, String)) -> bool {
    match outcome {
        Ok(c) => r.0 == c && r.1@ == report_text(c),
        Err(e) => (r.0 matches CommandResult::Error(m) && m@ == error_text(e)) && r.1@ == "Command error: "@ + error_text(e),
    }
}

/// The result the terminal keeps of a command's outcome, and the line it prints.
pub fn conclude(outcome: McpResult<CommandResult>) -> (r: (CommandResult, String))
    ensures
        concluded(outcome, r),
{
    match outcome {
        Ok(c) => {
            let line = c.report();
            (c, line)
        },
        Err(e) => {
            let text = e.to_text();
            let line = concat2("Command error: ", text.as_str());
            (CommandResult::Error(text), line)
        },
    }
}

/// Records the outcome `connected` of connecting to `server_id` at `address`.
pub fn run_connect(agent: &mut Agent, server_id: &str, address: &str, connected: McpResult<()>) -> (r: McpResult<
    CommandResult,
>)
    requires
        old(agent).metrics().connection_attempts < u64::MAX,
        connected is Ok ==> old(agent).metrics().connection_successes < u64::MAX,
        connected is Err ==> old(agent).metrics().connection_failures < u64::MAX,
    ensures
        match connected {
            Ok(_) => (r matches Ok(CommandResult::Success(m)) && m@ == "Connected to "@ + server_id@)
                && final(agent).connection(server_id@) == Some(address@),
            Err(e) => r == Err::<CommandResult, McpError>(e)
                && forall|k: Seq<char>| final(agent).connection(k) == old(agent).connection(k),
        },
{
    match agent.connect_to_test_server(server_id, address, connected) {
        Ok(()) => Ok(CommandResult::Success(concat2("Connected to ", server_id))),
        Err(e) => Err(e),
    }
}

/// Disconnects from `server_id`.
pub fn run_disconnect(agent: &mut Agent, server_id: &str) -> (r: McpResult<CommandResult>)
    ensures
        r matches Ok(CommandResult::Success(m)) && m@ == "Disconnected from "@ + server_id@,
        final(agent).connection(server_id@) is None,
        forall|k: Seq<char>| k != server_id@ ==> final(agent).connection(k) == old(agent).connection(k),
{
    match agent.disconnect(server_id) {
        Ok(()) => Ok(CommandResult::Success(concat2("Disconnected from ", server_id))),
        Err(e) => Err(e),
    }
}

/// The answer of `list`: the number of connected servers and their names.
pub open spec fn list_text(names: Seq<Seq<char>>) -> Seq<char> {
    if names.len() == 0 {
        "No active connections"@
    } else {
        "Connected to "@ + decimal(names.len()) + " servers: "@ + join(names, ", "@)
    }
}

/// Lists the connected servers.
pub fn run_list(agent: &Agent) -> (r: McpResult<CommandResult>)
    ensures
        r matches Ok(CommandResult::Success(m)) && m@ == list_text(agent.connection_names()),
{
    let count = agent.connection_count();
    let connections = agent.list_connections();
    if connections.len() == 0 {
        Ok(CommandResult::Success(owned("No active connections")))
    } else {
        let n = u64_to_string(count as u64);
        let mut m = concat2("Connected to ", n.as_str());
        m.append(" servers: ");
        let names = join_strings(&connections, ", ");
        m.append(names.as_str());
        Ok(CommandResult::Success(m))
    }
}

/// Sends `payload` as a normal-priority request to `server_id`.
pub fn run_send(agent: &mut Agent, server_id: &str, payload: &str) -> (r: McpResult<CommandResult>)
    requires
        old(agent).connection(server_id@) is None ==> old(agent).metrics().operation_failures < u64::MAX,
        old(agent).connection(server_id@) is Some ==> old(agent).metrics().messages_sent < u64::MAX,
    ensures
        old(agent).connection(server_id@) is None ==> r == Err::<CommandResult, McpError>(McpError::NotConnected),
        old(agent).connection(server_id@) is Some ==> (r matches Ok(CommandResult::Success(m)) && m@ == "Message sent to "@ + server_id@),
        final(agent).metrics().messages_sent == old(agent).metrics().messages_sent + if old(agent).connection(server_id@) is Some { 1int } else { 0int },
{
    let bytes = vstd::slice::slice_to_vec(payload.as_bytes());
    let message = Message::new(MessageType::Request, Priority::Normal, bytes, None, None);
    match agent.send_message(server_id, message) {
        Ok(()) => Ok(CommandResult::Success(concat2("Message sent to ", server_id))),
        Err(e) => Err(e),
    }
}

/// The arguments of `exec` and `stream`: the argument text read as JSON
/// where it is JSON (`parsed`), else an object with the text as its `value`.
pub fn exec_args(parsed: Option<JsonValue>, text: String) -> (r: JsonValue)
    ensures
        match parsed {
            Some(v) => r == v,
            None => json_model(r) == JsonModel::Object(seq![("value"@, JsonModel::String(text@))]),
        },
{
    match parsed {
        Some(v) => v,
        None => {
            let ghost t = text@;
            let mut members: Vec<(String, JsonValue)> = Vec::new();
            members.push((owned("value"), JsonValue::String(text)));
            let r = JsonValue::Object(members);
            proof {
                reveal_with_fuel(json_model, 2);
                assert(json_model(r)->Object_0 =~= seq![("value"@, JsonModel::String(t))]);
            }
            r
        },
    }
}

} // verus!
