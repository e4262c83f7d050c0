use vstd::prelude::*;
use vstd::string::to_string_from_display_ensures;

use crate::cli::{Exit, EXIT_STATUS};

verus! {

/// Every cause of failure the command-line tool reports before stopping.
#[derive(Debug)]
pub enum Error {
    /// Some unspecified error, kept as the text it renders to.
    Any(String),
    TokioError { description: String },
    UnknownError,
    UnreadableMessage,
    FileNotFound { path: String },
    RequestError { description: String },
    ParsingError { description: String },
    MissingChatId,
    NoInput,
}

/// Shown for the variants that have no message of their own yet.
pub open spec fn placeholder_text() -> Seq<char> {
    "\nTODO: add error description"@
}

pub open spec fn send_failure_text(description: Seq<char>) -> Seq<char> {
    "\nMessage failed to send due to:\n\t"@ + description
}

pub open spec fn missing_file_text(path: Seq<char>) -> Seq<char> {
    "\nCould not find file in path:\n\t"@ + path
}

pub open spec fn parse_failure_text(description: Seq<char>) -> Seq<char> {
    "\nError from parsing:\n\t"@ + description
}

pub open spec fn missing_chat_id_text() -> Seq<char> {
    "\nChat ID not found in flags or TEPE_TELEGRAM_CHAT_ID"@
}

pub open spec fn no_input_text() -> Seq<char> {
    "\nNo input was given"@
}

pub open spec fn unreadable_message_text() -> Seq<char> {
    "\nIssue parsing message"@
}

impl Error {
    /// The text shown to the user for this error.
    pub open spec fn spec_message(&self) -> Seq<char> {
        match self {
            Error::RequestError { description } => send_failure_text(description@),
            Error::TokioError { description } => send_failure_text(description@),
            Error::FileNotFound { path } => missing_file_text(path@),
            Error::MissingChatId => missing_chat_id_text(),
            Error::NoInput => no_input_text(),
            Error::ParsingError { description } => parse_failure_text(description@),
            Error::UnreadableMessage => unreadable_message_text(),
            Error::Any(_) => placeholder_text(),
            Error::UnknownError => placeholder_text(),
        }
    }

    /// Renders the error as the message written to standard error.
    pub fn message(&self) -> (r: String)
        ensures
            r@ == self.spec_message(),
    {
        match self {
            Error::RequestError { description } | Error::TokioError { description } => {
                let mut s = String::from_str("\nMessage failed to send due to:\n\t");
                s.append(description.as_str());
                s
            },
            Error::FileNotFound { path } => {
                let mut s = String::from_str("\nCould not find file in path:\n\t");
                s.append(path.as_str());
                s
            },
            Error::MissingChatId => String::from_str(
                "\nChat ID not found in flags or TEPE_TELEGRAM_CHAT_ID",
            ),
            Error::NoInput => String::from_str("\nNo input was given"),
            Error::ParsingError { description } => {
                let mut s = String::from_str("\nError from parsing:\n\t");
                s.append(description.as_str());
                s
            },
            Error::UnreadableMessage => String::from_str("\nIssue parsing message"),
            _ => String::from_str("\nTODO: add error description"),
        }
    }

    /// How the tool stops on this error: its message on standard error, then
    /// the process ends with the usual status.
    pub fn into_exit(self) -> (r: Exit)
        ensures
            r.message@ == self.spec_message(),
            r.status == EXIT_STATUS,
    {
        Exit { message: self.message(), status: EXIT_STATUS }
    }
}

/// The two errors are of one variant and carry payloads of the same text.
pub open spec fn same_cause(a: Error, b: Error) -> bool {
    match a {
        Error::Any(x) => b matches Error::Any(y) && x@ == y@,
        Error::TokioError { description: x } => b matches Error::TokioError { description: y }
            && x@ == y@,
        Error::UnknownError => b is UnknownError,
        Error::UnreadableMessage => b is UnreadableMessage,
        Error::FileNotFound { path: x } => b matches Error::FileNotFound { path: y } && x@ == y@,
        Error::RequestError { description: x } => b matches Error::RequestError { description: y }
            && x@ == y@,
        Error::ParsingError { description: x } => b matches Error::ParsingError { description: y }
            && x@ == y@,
        Error::MissingChatId => b is MissingChatId,
        Error::NoInput => b is NoInput,
    }
}

/// Formatting is deterministic: errors of one variant with payloads of the
/// same text are rendered to the same message.
pub proof fn message_determined_by_cause(a: Error, b: Error)
    requires
        same_cause(a, b),
    ensures
        a.spec_message() == b.spec_message(),
{
}

/// The unclassified errors, `Any` whatever its payload and `UnknownError`,
/// are always rendered to the placeholder text.
pub proof fn unclassified_message_is_placeholder(e: Error)
    requires
        e is Any || e is UnknownError,
    ensures
        e.spec_message() == placeholder_text(),
{
}

/// Declares teloxide's request failure so that it can be converted.
#[verifier::external_type_specification]
#[verifier::external_body]
pub struct ExRequestError(teloxide::RequestError);

/// Declares std's I/O failure, which tokio re-exports as `tokio::io::Error`.
#[verifier::external_type_specification]
#[verifier::external_body]
pub struct ExIoError(std::io::Error);

/// Declares std's integer-parsing failure.
#[verifier::external_type_specification]
#[verifier::external_body]
pub struct ExParseIntError(std::num::ParseIntError);

impl From<teloxide::RequestError> for Error {
    /// Keeps the request failure's rendered text.
    fn from(error: teloxide::RequestError) -> (r: Error)
        ensures
            r matches Error::RequestError { description }
                && to_string_from_display_ensures(&error, description),
    {
        Error::RequestError { description: error.to_string() }
    }
}

// The text comes from an outside `Display` impl, which has no spec-level
// rendering: `from` states its result in its own `ensures` instead.
impl vstd::std_specs::convert::FromSpecImpl<teloxide::RequestError> for Error {
    open spec fn obeys_from_spec() -> bool {
        false
    }

    open spec fn from_spec(v: teloxide::RequestError) -> Error {
        Error::UnknownError
    }
}

impl From<std::io::Error> for Error {
    /// Keeps the I/O failure's rendered text.
    fn from(error: std::io::Error) -> (r: Error)
        ensures
            r matches Error::TokioError { description }
                && to_string_from_display_ensures(&error, description),
    {
        Error::TokioError { description: error.to_string() }
    }
}

// The text comes from an outside `Display` impl, which has no spec-level
// rendering: `from` states its result in its own `ensures` instead.
impl vstd::std_specs::convert::FromSpecImpl<std::io::Error> for Error {
    open spec fn obeys_from_spec() -> bool {
        false
    }

    open spec fn from_spec(v: std::io::Error) -> Error {
        Error::UnknownError
    }
}

impl From<std::num::ParseIntError> for Error {
    /// Keeps the parse failure's rendered text.
    fn from(error: std::num::ParseIntError) -> (r: Error)
        ensures
            r matches Error::ParsingError { description }
                && to_string_from_display_ensures(&error, description),
    {
        Error::ParsingError { description: error.to_string() }
    }
}

// The text comes from an outside `Display` impl, which has no spec-level
// rendering: `from` states its result in its own `ensures` instead.
impl vstd::std_specs::convert::FromSpecImpl<std::num::ParseIntError> for Error {
    open spec fn obeys_from_spec() -> bool {
        false
    }

    open spec fn from_spec(v: std::num::ParseIntError) -> Error {
        Error::UnknownError
    }
}

} // verus!
