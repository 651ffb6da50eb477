//! Command dispatch: the first command-line token picks one of three actions,
//! and anything unrecognized is reported with the usage text.

use crate::text::{append_vec, bytes_eq, str_to_bytes};
use vstd::prelude::*;
use vstd::string::StringSliceAdditionalSpecFns;

verus! {

/// What the first command-line token asks for.
#[derive(PartialEq, Eq, Structural, Debug, Clone, Copy)]
pub enum Command {
    /// No token, or the explicit commit token: run the auto-commit workflow.
    AutoCommit,
    /// Print the usage text and end successfully.
    Help,
    /// Prompt for and store the API key.
    SetApiKey,
    /// Anything else: report the token and the usage text, and fail.
    Invalid,
}

/// The view of an optional argument vector.
pub open spec fn opt_bytes_view(arg: Option<&Vec<u8>>) -> Option<Seq<u8>> {
    match arg {
        Option::Some(a) => Option::Some(a@),
        Option::None => Option::None,
    }
}

/// The action selected by the first command-line token.
pub open spec fn command_of(arg: Option<Seq<u8>>) -> Command {
    match arg {
        Option::None => Command::AutoCommit,
        Option::Some(s) => if s == "help".spec_bytes() {
            Command::Help
        } else if s == "set-api-key".spec_bytes() {
            Command::SetApiKey
        } else if s == "commit".spec_bytes() {
            Command::AutoCommit
        } else {
            Command::Invalid
        },
    }
}

/// Routes the first command-line token, if any, to an action.
pub fn parse_command(arg: Option<&Vec<u8>>) -> (c: Command)
    ensures
        c == command_of(opt_bytes_view(arg)),
{
    match arg {
        None => Command::AutoCommit,
        Some(a) => {
            let token = str_to_bytes("help");
            if bytes_eq(a, &token) {
                return Command::Help;
            }
            let token = str_to_bytes("set-api-key");
            if bytes_eq(a, &token) {
                return Command::SetApiKey;
            }
            let token = str_to_bytes("commit");
            if bytes_eq(a, &token) {
                return Command::AutoCommit;
            }
            Command::Invalid
        },
    }
}

/// The usage text, one description per line.
pub open spec fn usage_note() -> Seq<u8> {
    "quickcommit - A smart Git commit CLI tool\nUsage:\n  quickcommit                 Auto-generate commit message and commit staged changes\n  quickcommit commit          Same as above, explicitly specified\n  quickcommit help            Display this help message\n  quickcommit set-api-key     Set or update the API key for the LLM service\n".spec_bytes()
}

/// Renders the usage text.
pub fn usage_text() -> (r: Vec<u8>)
    ensures
        r@ == usage_note(),
{
    str_to_bytes(
        "quickcommit - A smart Git commit CLI tool\nUsage:\n  quickcommit                 Auto-generate commit message and commit staged changes\n  quickcommit commit          Same as above, explicitly specified\n  quickcommit help            Display this help message\n  quickcommit set-api-key     Set or update the API key for the LLM service\n",
    )
}

/// The error line that names an unrecognized token.
pub open spec fn invalid_command_note(arg: Seq<u8>) -> Seq<u8> {
    "Error: Invalid command '".spec_bytes() + arg + "'".spec_bytes()
}

/// Renders the error line for an unrecognized token.
pub fn invalid_command_text(arg: &Vec<u8>) -> (r: Vec<u8>)
    ensures
        r@ == invalid_command_note(arg@),
{
    let mut r = str_to_bytes("Error: Invalid command '");
    append_vec(&mut r, arg);
    let quote = str_to_bytes("'");
    append_vec(&mut r, &quote);
    proof {
        assert(r@ =~= invalid_command_note(arg@));
    }
    r
}

/// A token outside the recognized set is dispatched as invalid: exactly the
/// absent token and the three literal tokens are accepted.
pub proof fn unknown_token_is_invalid(arg: Option<Seq<u8>>)
    ensures
        command_of(arg) == Command::Invalid <==> (arg matches Some(s) && s != "help".spec_bytes()
            && s != "set-api-key".spec_bytes() && s != "commit".spec_bytes()),
{
}

} // verus!
