//! The tagged failures that the client and the command surface report.

use vstd::prelude::*;
use vstd::string::StringExecFns;
use crate::text::{decimal, decimal_text, join2, join3};

verus! {

/// Everything that can abort a bootstrap or fail a call.
#[derive(Debug, PartialEq, Eq)]
pub enum FoundryClientError {
    /// A stage was run before the stage it depends on; carries what was missing.
    FailedInit(String),
    /// The base URL is malformed; carries the parser's message.
    URLError(String),
    /// The join endpoint could not be reached; carries the HTTP layer's message.
    JoinError(String),
    /// The join endpoint answered without a session cookie.
    SessionError,
    /// The transport could not be opened, or is not open; carries the reason.
    SocketError(String),
    /// A bootstrap call went unacknowledged for its whole timeout; carries the
    /// event's name.
    TimeoutError(String),
    /// The display name is absent from the roster; carries that name.
    NoUserError(String),
    /// The login was answered with a non-success status; carries that status.
    AuthError(u16),
    /// A reply does not have the agreed shape: where it departs, and the JSON
    /// type found there.
    MalformedData { path: String, value: String },
}

/// The mathematical value of a [`FoundryClientError`].
pub enum ClientFault {
    FailedInit(Seq<char>),
    URLError(Seq<char>),
    JoinError(Seq<char>),
    SessionError,
    SocketError(Seq<char>),
    TimeoutError(Seq<char>),
    NoUserError(Seq<char>),
    AuthError(u16),
    MalformedData { path: Seq<char>, value: Seq<char> },
}

impl View for FoundryClientError {
    type V = ClientFault;

    open spec fn view(&self) -> ClientFault {
        match self {
            FoundryClientError::FailedInit(what) => ClientFault::FailedInit(what@),
            FoundryClientError::URLError(why) => ClientFault::URLError(why@),
            FoundryClientError::JoinError(why) => ClientFault::JoinError(why@),
            FoundryClientError::SessionError => ClientFault::SessionError,
            FoundryClientError::SocketError(why) => ClientFault::SocketError(why@),
            FoundryClientError::TimeoutError(event) => ClientFault::TimeoutError(event@),
            FoundryClientError::NoUserError(name) => ClientFault::NoUserError(name@),
            FoundryClientError::AuthError(status) => ClientFault::AuthError(*status),
            FoundryClientError::MalformedData { path, value } => ClientFault::MalformedData {
                path: path@,
                value: value@,
            },
        }
    }
}

impl ClientFault {
    /// The message shown to a person.
    pub open spec fn message(self) -> Seq<char> {
        match self {
            ClientFault::FailedInit(_) => "Manual initialization of Foundry Client failed"@,
            ClientFault::URLError(why) => "Provided host "@ + why
                + " was unable to be parsed as a url"@,
            ClientFault::JoinError(why) => "HTTP Connection error: "@ + why,
            ClientFault::SessionError => "Join endpoint did not set a session cookie"@,
            ClientFault::SocketError(why) => "Socket Connection error: "@ + why,
            ClientFault::TimeoutError(event) => "No acknowledgement of "@ + event
                + " within its timeout"@,
            ClientFault::NoUserError(name) => "Failed to login as user: "@ + name,
            ClientFault::AuthError(status) => "Login rejected with status "@ + decimal_text(
                status as nat,
            ),
            ClientFault::MalformedData { path, value } => "Failed to parse initial userdata: "@
                + path + " within "@ + value
                + " is not formatted as expected - perhaps a version incompatibility?"@,
        }
    }
}

impl FoundryClientError {
    /// The message shown to a person.
    pub fn message(&self) -> (text: String)
        ensures
            text@ == self@.message(),
    {
        match self {
            FoundryClientError::FailedInit(_) => String::from_str(
                "Manual initialization of Foundry Client failed",
            ),
            FoundryClientError::URLError(why) => join3(
                "Provided host ",
                why.as_str(),
                " was unable to be parsed as a url",
            ),
            FoundryClientError::JoinError(why) => join2("HTTP Connection error: ", why.as_str()),
            FoundryClientError::SessionError => String::from_str(
                "Join endpoint did not set a session cookie",
            ),
            FoundryClientError::SocketError(why) => join2(
                "Socket Connection error: ",
                why.as_str(),
            ),
            FoundryClientError::TimeoutError(event) => join3(
                "No acknowledgement of ",
                event.as_str(),
                " within its timeout",
            ),
            FoundryClientError::NoUserError(name) => join2(
                "Failed to login as user: ",
                name.as_str(),
            ),
            FoundryClientError::AuthError(status) => {
                let digits = decimal(*status as u64);
                join2("Login rejected with status ", digits.as_str())
            },
            FoundryClientError::MalformedData { path, value } => {
                let mut text = join3(
                    "Failed to parse initial userdata: ",
                    path.as_str(),
                    " within ",
                );
                text.append(value.as_str());
                text.append(" is not formatted as expected - perhaps a version incompatibility?");
                text
            },
        }
    }
}

/// Failures of the chat commands built on the client.
#[derive(Debug, PartialEq, Eq)]
pub enum CommandError {
    /// No player character of that name can be associated.
    CharacterNotFound(String),
    /// The caller has no associated character.
    MissingAssocChar,
    /// The associated character no longer resolves to a player character.
    InvalidAssocChar,
    /// The attribute to roll is not one the rules know.
    InvalidAttribute(String),
}

/// The mathematical value of a [`CommandError`].
pub enum CommandFault {
    CharacterNotFound(Seq<char>),
    MissingAssocChar,
    InvalidAssocChar,
    InvalidAttribute(Seq<char>),
}

impl View for CommandError {
    type V = CommandFault;

    open spec fn view(&self) -> CommandFault {
        match self {
            CommandError::CharacterNotFound(name) => CommandFault::CharacterNotFound(name@),
            CommandError::MissingAssocChar => CommandFault::MissingAssocChar,
            CommandError::InvalidAssocChar => CommandFault::InvalidAssocChar,
            CommandError::InvalidAttribute(name) => CommandFault::InvalidAttribute(name@),
        }
    }
}

impl CommandFault {
    /// The message shown to a person.
    pub open spec fn message(self) -> Seq<char> {
        match self {
            CommandFault::CharacterNotFound(name) => "No actor named '"@ + name
                + "' found. Be careful about case sensitivity"@,
            CommandFault::MissingAssocChar =>
                "You must first /assoc with a character name in the foundry world"@,
            CommandFault::InvalidAssocChar =>
                "Your currently associated character is invalid/deleted. /assoc with a new character in the foundry world"@,
            CommandFault::InvalidAttribute(name) => "The attribute you tried to roll ("@ + name
                + ") was not recognized"@,
        }
    }
}

impl CommandError {
    /// The message shown to a person.
    pub fn message(&self) -> (text: String)
        ensures
            text@ == self@.message(),
    {
        match self {
            CommandError::CharacterNotFound(name) => join3(
                "No actor named '",
                name.as_str(),
                "' found. Be careful about case sensitivity",
            ),
            CommandError::MissingAssocChar => String::from_str(
                "You must first /assoc with a character name in the foundry world",
            ),
            CommandError::InvalidAssocChar => String::from_str(
                "Your currently associated character is invalid/deleted. /assoc with a new character in the foundry world",
            ),
            CommandError::InvalidAttribute(name) => join3(
                "The attribute you tried to roll (",
                name.as_str(),
                ") was not recognized",
            ),
        }
    }
}

} // verus!
