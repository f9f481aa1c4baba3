//! Which of the two roles a process plays.

use vstd::prelude::*;
use vstd::string::StringExecFns;

verus! {

/// The role of one process: it accepts many connections, or it opens one.
#[derive(Clone, Copy, Debug, PartialEq, Eq, Structural)]
pub enum SessionRole {
    Server,
    Client,
}

/// Why a process cannot start at all.
#[derive(Clone, Copy, Debug, PartialEq, Eq, Structural)]
pub enum StartupError {
    /// The command line names no role.
    MissingArgument,
}

/// The word that selects the client role.
pub open spec fn client_word() -> Seq<char> {
    "client"@
}

/// The role that a command line asks for. `args[0]` is the program's name and
/// `args[1]` the role: the client's word gives the client, any other word the
/// server. Later arguments are not looked at.
pub open spec fn role_of(args: Seq<Seq<char>>) -> Result<SessionRole, StartupError> {
    if args.len() <= 1 {
        Err(StartupError::MissingArgument)
    } else if args[1] == client_word() {
        Ok(SessionRole::Client)
    } else {
        Ok(SessionRole::Server)
    }
}

/// The arguments of a process as sequences of characters.
pub open spec fn words(args: Seq<String>) -> Seq<Seq<char>> {
    args.map_values(|s: String| s@)
}

/// Decides the role of this process from its command line.
pub fn select_role(args: &Vec<String>) -> (role: Result<SessionRole, StartupError>)
    ensures
        role == role_of(words(args@)),
{
    if args.len() > 1 {
        let word = String::from_str("client");
        if args[1] == word {
            Ok(SessionRole::Client)
        } else {
            Ok(SessionRole::Server)
        }
    } else {
        Err(StartupError::MissingArgument)
    }
}

} // verus!
