//! Resolving the command line that starts the language server.

use vstd::prelude::*;
use zed_extension_api::{Command, Worktree};

verus! {

/// The server's binary, searched for in the worktree and used as the bare
/// name when the search finds nothing.
pub const SERVER_BINARY: &'static str = "spectra-lsp";

/// The flag that asks the server to speak over standard input and output.
pub const STDIO_FLAG: &'static str = "--stdio";

/// zed_extension_api's `Command`: the binary, its arguments and the
/// environment variables to set, all public fields.
#[verifier::external_type_specification]
pub struct ExCommand(Command);

/// zed_extension_api's `Worktree`: a handle to the project that the host
/// owns, opaque here.
#[verifier::external_type_specification]
#[verifier::external_body]
pub struct ExWorktree(Worktree);

/// Relies on `Worktree::which` of zed_extension_api: it asks the host for the
/// path of an executable by name. What it finds depends on the machine, so
/// nothing is promised of the result.
pub assume_specification[ Worktree::which ](worktree: &Worktree, binary_name: &str) -> Option<String>;

/// The argument list holds the transport flag and nothing else, and no
/// environment variable is set.
pub open spec fn is_stdio_launch(c: Command) -> bool {
    &&& c.args@.len() == 1
    &&& c.args@[0]@ == STDIO_FLAG@
    &&& c.env@.len() == 0
}

/// Builds the command that starts the server from the result of the search
/// for its binary.
pub fn command_for(found: Option<String>) -> (r: Command)
    ensures
        found matches Some(path) ==> r.command@ == path@,
        found is None ==> r.command@ == SERVER_BINARY@,
        is_stdio_launch(r),
{
    let command = match found {
        Some(path) => path,
        None => SERVER_BINARY.to_string(),
    };
    let mut args: Vec<String> = Vec::new();
    args.push(STDIO_FLAG.to_string());
    Command { command, args, env: Vec::new() }
}

/// Searches the worktree for the server's binary and builds the command that
/// starts it.
pub fn language_server_command(worktree: &Worktree) -> (r: Command)
    ensures
        is_stdio_launch(r),
{
    let found = worktree.which(SERVER_BINARY);
    command_for(found)
}

} // verus!
