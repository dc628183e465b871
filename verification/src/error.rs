//! The closed set of failures and their one mapping to transport status.

use vstd::prelude::*;
use vstd::string::StringExecFns;

verus! {

/// Every way an operation of the service can fail.
#[derive(Debug, Clone, PartialEq, Eq)]
pub enum Error {
    /// The backing store failed; the text is the store's own account of it.
    DbError(String),
    /// The configuration file could not be read.
    ConfigReadError,
    /// The configuration file could not be understood.
    ConfigParseError,
    /// The owner identity, given here, names no owner.
    InvalidUserId(String),
    /// The start and end of a time range contradict each other.
    InvalidTime,
    /// No document has the given identity.
    NotFound,
    /// A condition that none of the other kinds covers.
    Unknown,
}

/// An [`Error`] with its texts as sequences of characters.
pub enum ErrorView {
    DbError(Seq<char>),
    ConfigReadError,
    ConfigParseError,
    InvalidUserId(Seq<char>),
    InvalidTime,
    NotFound,
    Unknown,
}

impl View for Error {
    type V = ErrorView;

    open spec fn view(&self) -> ErrorView {
        match self {
            Error::DbError(text) => ErrorView::DbError(text@),
            Error::ConfigReadError => ErrorView::ConfigReadError,
            Error::ConfigParseError => ErrorView::ConfigParseError,
            Error::InvalidUserId(owner) => ErrorView::InvalidUserId(owner@),
            Error::InvalidTime => ErrorView::InvalidTime,
            Error::NotFound => ErrorView::NotFound,
            Error::Unknown => ErrorView::Unknown,
        }
    }
}

/// The transport statuses that a failure can reach the caller as.
#[derive(Debug, Clone, Copy, PartialEq, Eq, Structural)]
pub enum Code {
    /// The service itself failed.
    Internal,
    /// The request was malformed.
    InvalidArgument,
    /// The request named something that does not exist.
    NotFound,
}

/// A terminal status: its code and a message for the reader.
#[derive(Debug, Clone, PartialEq, Eq)]
pub struct Status {
    pub code: Code,
    pub message: String,
}

/// A [`Status`] with its message as a sequence of characters.
pub struct StatusView {
    pub code: Code,
    pub message: Seq<char>,
}

impl View for Status {
    type V = StatusView;

    open spec fn view(&self) -> StatusView {
        StatusView { code: self.code, message: self.message@ }
    }
}

impl ErrorView {
    /// The status code that this kind of failure maps to.
    pub open spec fn code(self) -> Code {
        match self {
            ErrorView::DbError(_) => Code::Internal,
            ErrorView::ConfigReadError => Code::Internal,
            ErrorView::ConfigParseError => Code::Internal,
            ErrorView::Unknown => Code::Internal,
            ErrorView::InvalidUserId(_) => Code::InvalidArgument,
            ErrorView::InvalidTime => Code::InvalidArgument,
            ErrorView::NotFound => Code::NotFound,
        }
    }

    /// The sentence that describes this failure by its kind.
    pub open spec fn message(self) -> Seq<char> {
        match self {
            ErrorView::DbError(_) => "Database error"@,
            ErrorView::ConfigReadError => "Failed to read configuration file"@,
            ErrorView::ConfigParseError => "Failed to parse configuration file"@,
            ErrorView::InvalidUserId(owner) => "Invalid user id: "@ + owner,
            ErrorView::InvalidTime => "Invalid start or end time range"@,
            ErrorView::NotFound => "No document found by the given id"@,
            ErrorView::Unknown => "unknown error"@,
        }
    }

    /// The message that the status of this failure carries: the store's own
    /// text for a store failure, the sentence of the kind otherwise.
    pub open spec fn status_message(self) -> Seq<char> {
        match self {
            ErrorView::DbError(text) => text,
            _ => self.message(),
        }
    }

    /// The status that this failure reaches the caller as.
    pub open spec fn status(self) -> StatusView {
        StatusView { code: self.code(), message: self.status_message() }
    }

    /// Whether the failure is the caller's doing and so never reached the store.
    pub open spec fn is_client_error(self) -> bool {
        self is InvalidUserId || self is InvalidTime
    }
}

impl Error {
    /// The sentence that describes this failure by its kind.
    pub fn message(&self) -> (text: String)
        ensures
            text@ == self@.message(),
    {
        match self {
            Error::DbError(_) => String::from_str("Database error"),
            Error::ConfigReadError => String::from_str("Failed to read configuration file"),
            Error::ConfigParseError => String::from_str("Failed to parse configuration file"),
            Error::InvalidUserId(owner) => {
                let mut text = String::from_str("Invalid user id: ");
                text.append(owner.as_str());
                text
            },
            Error::InvalidTime => String::from_str("Invalid start or end time range"),
            Error::NotFound => String::from_str("No document found by the given id"),
            Error::Unknown => String::from_str("unknown error"),
        }
    }

    /// The status code that this kind of failure maps to.
    pub fn code(&self) -> (code: Code)
        ensures
            code == self@.code(),
    {
        match self {
            Error::DbError(_) | Error::ConfigReadError | Error::ConfigParseError | Error::Unknown => {
                Code::Internal
            },
            Error::InvalidUserId(_) | Error::InvalidTime => Code::InvalidArgument,
            Error::NotFound => Code::NotFound,
        }
    }
}

impl Status {
    /// A status with the given code and message.
    pub fn new(code: Code, message: &str) -> (status: Status)
        ensures
            status@ == (StatusView { code, message: message@ }),
    {
        Status { code, message: String::from_str(message) }
    }

    /// The status of a request that lacks a mandatory part.
    pub fn invalid_argument(message: &str) -> (status: Status)
        ensures
            status@ == (StatusView { code: Code::InvalidArgument, message: message@ }),
    {
        Status::new(Code::InvalidArgument, message)
    }

    /// The single mapping from failures to statuses.
    pub fn from(e: Error) -> (status: Status)
        ensures
            status@ == e@.status(),
    {
        let code = e.code();
        let message = match e {
            Error::DbError(text) => text,
            other => other.message(),
        };
        Status { code, message }
    }
}

/// Every failure maps to exactly one of the three statuses, by its kind
/// alone: configuration, store and unclassified failures to the internal
/// one, the two input errors to the invalid-argument one, a missing
/// document to the not-found one.
pub proof fn lemma_status_by_kind(e: ErrorView)
    ensures
        e.status().code == Code::Internal <==> (e is DbError || e is ConfigReadError
            || e is ConfigParseError || e is Unknown),
        e.status().code == Code::InvalidArgument <==> e.is_client_error(),
        e.status().code == Code::NotFound <==> e is NotFound,
{
}

} // verus!
