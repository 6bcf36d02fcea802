//! The chat side: which reply each message of a user gets, and which request it puts
//! to the worker.

use crate::db::{DbCommand, DbCommandModel, UserId};
use crate::text::chars_of;
use vstd::prelude::*;

verus! {

/// A command of the chat.
#[derive(Clone, Copy, Debug, PartialEq, Eq, Structural)]
pub enum Command {
    /// Ask for the application's credential.
    Token,
    /// Ask for the address that the application reported last.
    GetMyIp,
    /// Ask for the help text.
    Help,
}

/// What answers a message.
#[derive(Clone, Copy, Debug, PartialEq, Eq, Structural)]
pub enum Endpoint {
    /// The credential of the user's application.
    Token,
    /// The last reported address of the user's application.
    GetMyIp,
    /// The help text.
    Help,
    /// The notice that the command is unknown.
    InvalidCommand,
}

/// The notice that answers an unknown command.
pub const UNKNOWN_COMMAND: &'static str = "Unknown command. Would you repeat?";

/// The opening of the help text; the list of commands follows it.
pub const HELP_OPENING: &'static str =
    "I can help you with tracking your PC VPN IP address, so you can\nconnect to it from another location if you are connected to the same VPN network.\n\n";

/// What goes before the credential in the message that holds one.
pub const TOKEN_OPENING: &'static str = "Your token is `";

/// What goes after the credential in the message that holds one.
pub const TOKEN_CLOSING: &'static str = "`";

/// The text that greets a new chat.
pub const START: &'static str = "/start";

/// What answers a message. `command` is the command that the message was read as, if
/// it was read as one; `text` is the message's text, if it has one.
///
/// A command is answered by its own endpoint. Of the other messages, `/start` gets the
/// help text, any other text that begins with a slash the notice of an unknown
/// command, and the rest the help text.
pub open spec fn schema_of(command: Option<Command>, text: Option<Seq<char>>) -> Endpoint {
    match command {
        Some(Command::Token) => Endpoint::Token,
        Some(Command::GetMyIp) => Endpoint::GetMyIp,
        Some(Command::Help) => Endpoint::Help,
        None => match text {
            Some(text) => if text == START@ {
                Endpoint::Help
            } else if text.len() > 0 && text[0] == '/' {
                Endpoint::InvalidCommand
            } else {
                Endpoint::Help
            },
            None => Endpoint::Help,
        },
    }
}

/// The request that an endpoint puts to the worker for the user `user`, if any.
pub open spec fn request_of(endpoint: Endpoint, user: u64) -> Option<DbCommandModel> {
    match endpoint {
        Endpoint::Token => Some(DbCommandModel::TokenGenerateRequest(user)),
        Endpoint::GetMyIp => Some(DbCommandModel::IpGetRequest(user)),
        _ => None,
    }
}

/// Finds the endpoint that answers a message.
pub fn schema(command: Option<Command>, text: Option<&str>) -> (endpoint: Endpoint)
    ensures
        endpoint == schema_of(
            command,
            match text {
                Some(text) => Some(text@),
                None => None,
            },
        ),
{
    match command {
        Some(Command::Token) => Endpoint::Token,
        Some(Command::GetMyIp) => Endpoint::GetMyIp,
        Some(Command::Help) => Endpoint::Help,
        None => match text {
            Some(text) => {
                let chars = chars_of(text);
                let start = chars_of(START);
                if same_text(&chars, &start) {
                    Endpoint::Help
                } else if chars.len() > 0 && chars[0] == '/' {
                    Endpoint::InvalidCommand
                } else {
                    Endpoint::Help
                }
            },
            None => Endpoint::Help,
        },
    }
}

/// Whether two texts are the same, character for character.
fn same_text(left: &Vec<char>, right: &Vec<char>) -> (same: bool)
    ensures
        same == (left@ == right@),
{
    if left.len() != right.len() {
        return false;
    }
    let mut i: usize = 0;
    while i < left.len()
        invariant
            left@.len() == right@.len(),
            i <= left@.len(),
            forall|j: int| 0 <= j < i ==> left@[j] == right@[j],
        decreases left@.len() - i,
    {
        if left[i] != right[i] {
            return false;
        }
        i = i + 1;
    }
    assert(left@ =~= right@);
    true
}

/// The request that the endpoint puts to the worker for the user `user`: one for a
/// credential, one for an address, none for the rest.
pub fn endpoint_request(endpoint: Endpoint, user: UserId) -> (request: Option<DbCommand>)
    ensures
        match request_of(endpoint, user.0) {
            Some(command) => request matches Some(c) && c@ == command,
            None => request is None,
        },
{
    match endpoint {
        Endpoint::Token => Some(DbCommand::TokenGenerateRequest(user)),
        Endpoint::GetMyIp => Some(DbCommand::IpGetRequest(user)),
        _ => None,
    }
}

/// The message that hands a user their credential.
pub fn token(credential: &str) -> (message: String)
    ensures
        message@ == TOKEN_OPENING@ + credential@ + TOKEN_CLOSING@,
{
    let mut message = TOKEN_OPENING.to_owned();
    message.append(credential);
    message.append(TOKEN_CLOSING);
    message
}

/// The help text: its opening, then the list of commands `descriptions`.
pub fn help(descriptions: &str) -> (message: String)
    ensures
        message@ == HELP_OPENING@ + descriptions@,
{
    let mut message = HELP_OPENING.to_owned();
    message.append(descriptions);
    message
}

/// The notice that answers an unknown command.
pub fn invalid_command() -> (message: String)
    ensures
        message@ == UNKNOWN_COMMAND@,
{
    UNKNOWN_COMMAND.to_owned()
}

} // verus!
