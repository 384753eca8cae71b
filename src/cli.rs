//! The command line: `<program> <port> <command>`.
use crate::message::{err_line, message, messages_view, Message, MessageView, Stream};
use crate::text::contains;
use vstd::prelude::*;

verus! {

/// What the command line asks for.
#[derive(PartialEq, Eq, Structural, Clone, Copy, Debug)]
pub enum Action {
    /// Report the processes that hold the port.
    Inspect,
    /// End the first process that holds the port.
    Kill,
}

/// A valid command line: the port and the action on it.
#[derive(Clone, Debug, PartialEq, Eq)]
pub struct Invocation {
    pub port: String,
    pub action: Action,
}

/// A command line that cannot be run.
#[derive(Clone, Debug, PartialEq, Eq)]
pub enum CliError {
    /// Fewer than two arguments.
    Usage,
    /// The command is neither `inspect` nor `kill`.
    InvalidCommand(String),
}

/// The status the program exits with on a command line it cannot run.
pub const FAILURE_STATUS: i32 = 1;

/// Reads the arguments that follow the program's name. Arguments after the
/// second are ignored.
pub fn parse_args(args: &Vec<String>) -> (r: Result<Invocation, CliError>)
    ensures
        args.len() < 2 <==> r matches Err(CliError::Usage),
        args.len() >= 2 && args[1]@ == "inspect"@ ==> (r matches Ok(inv) && inv.port@
            == args[0]@ && inv.action == Action::Inspect),
        args.len() >= 2 && args[1]@ == "kill"@ ==> (r matches Ok(inv) && inv.port@ == args[0]@
            && inv.action == Action::Kill),
        args.len() >= 2 && args[1]@ != "inspect"@ && args[1]@ != "kill"@ ==> (r matches Err(
            CliError::InvalidCommand(c),
        ) && c@ == args[1]@),
{
    if args.len() < 2 {
        return Err(CliError::Usage);
    }
    proof {
        reveal_strlit("inspect");
        reveal_strlit("kill");
        assert("kill"@.len() != "inspect"@.len());
    }
    let port = args[0].clone();
    let command = &args[1];
    if *command == String::from_str("inspect") {
        Ok(Invocation { port, action: Action::Inspect })
    } else if *command == String::from_str("kill") {
        Ok(Invocation { port, action: Action::Kill })
    } else {
        Err(CliError::InvalidCommand(command.clone()))
    }
}

/// The usage text printed when arguments are missing.
pub open spec fn usage_view(program: Seq<char>) -> Seq<MessageView> {
    seq![
        err_line("Usage: "@ + program + " <port> <command>"@),
        err_line("Commands:"@),
        err_line("  inspect - Show the program using the specified port"@),
        err_line("  kill    - Kill the process using the specified port"@),
    ]
}

/// What is printed for an unknown command `command`.
pub open spec fn invalid_command_view(command: Seq<char>) -> Seq<MessageView> {
    seq![
        err_line("Invalid command: "@ + command),
        err_line("Available commands: inspect, kill"@),
    ]
}

/// What is printed for the error `e`, the program being named `program`.
pub open spec fn cli_error_view(program: Seq<char>, e: CliError) -> Seq<MessageView> {
    match e {
        CliError::Usage => usage_view(program),
        CliError::InvalidCommand(c) => invalid_command_view(c@),
    }
}

/// What is printed for the error `e`, the program being named `program`, and
/// the status to exit with.
pub fn cli_failure(program: &str, e: &CliError) -> (r: (Vec<Message>, i32))
    ensures
        messages_view(r.0@) == cli_error_view(program@, *e),
        r.1 == FAILURE_STATUS,
{
    let mut ms: Vec<Message> = Vec::new();
    match e {
        CliError::Usage => {
            ms.push(
                message(
                    Stream::Stderr,
                    String::from_str("Usage: ").concat(program).concat(" <port> <command>"),
                ),
            );
            ms.push(message(Stream::Stderr, String::from_str("Commands:")));
            ms.push(
                message(
                    Stream::Stderr,
                    String::from_str("  inspect - Show the program using the specified port"),
                ),
            );
            ms.push(
                message(
                    Stream::Stderr,
                    String::from_str("  kill    - Kill the process using the specified port"),
                ),
            );
        },
        CliError::InvalidCommand(c) => {
            ms.push(
                message(Stream::Stderr, String::from_str("Invalid command: ").concat(c.as_str())),
            );
            ms.push(message(Stream::Stderr, String::from_str("Available commands: inspect, kill")));
        },
    }
    assert(messages_view(ms@) =~= cli_error_view(program@, *e));
    (ms, FAILURE_STATUS)
}

/// The usage text names both commands, `inspect` and `kill`.
pub proof fn lemma_usage_names_commands(program: Seq<char>)
    ensures
        exists|i: int|
            0 <= i < usage_view(program).len() && contains(
                #[trigger] usage_view(program)[i].text,
                "inspect"@,
            ),
        exists|i: int|
            0 <= i < usage_view(program).len() && contains(
                #[trigger] usage_view(program)[i].text,
                "kill"@,
            ),
{
    reveal_strlit("  inspect - Show the program using the specified port");
    reveal_strlit("  kill    - Kill the process using the specified port");
    reveal_strlit("inspect");
    reveal_strlit("kill");
    let line2 = usage_view(program)[2].text;
    let line3 = usage_view(program)[3].text;
    assert(line2.subrange(2, 2 + "inspect"@.len() as int) =~= "inspect"@);
    assert(line3.subrange(2, 2 + "kill"@.len() as int) =~= "kill"@);
}

} // verus!
