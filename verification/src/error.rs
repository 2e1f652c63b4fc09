//! The errors of a session, and how each is reported to the frontend.

use vstd::prelude::*;
use crate::message::{BackendMessage, BackendMessageView, ErrorSeverity, MessageKind};
use crate::pgtype::Type;
use crate::sqlstate;
use crate::sqlstate::{option_sqlstate_view, SqlState};
use crate::text::{concat_str, decimal_string, decimal_text};

verus! {

/// What can go wrong while a request is handled.
#[derive(Debug, PartialEq)]
pub enum Error {
    /// The credentials for the named user were not accepted.
    AuthenticationFailure(String),
    /// A request could not be decoded.
    DecodeError(String),
    /// A response could not be encoded.
    EncodeError(String),
    /// A bind request named a number of result formats that is neither zero,
    /// one, nor the number of result columns, which is carried here.
    IncorrectFormatCount(usize),
    /// An invariant of this layer or of the engine's answers was violated.
    InternalError(String),
    /// A number in a request was malformed.
    InvalidInteger(String),
    /// The transport failed.
    IoError(String),
    /// No portal has the given name.
    MissingPortal(String),
    /// No prepared statement has the given name.
    MissingPreparedStatement(String),
    /// The engine could not parse a statement.
    ParseError(String),
    Unimplemented(String),
    Unknown(String),
    Unsupported(String),
    /// The request is not valid in the session's current state.
    UnsupportedMessage(MessageKind),
    /// No size is known for the type.
    UnsupportedType(Type),
    /// An error that the engine reports with its own code, if it has one.
    PostgresError { code: Option<SqlState>, message: String },
}

pub enum ErrorView {
    AuthenticationFailure(Seq<char>),
    DecodeError(Seq<char>),
    EncodeError(Seq<char>),
    IncorrectFormatCount(usize),
    InternalError(Seq<char>),
    InvalidInteger(Seq<char>),
    IoError(Seq<char>),
    MissingPortal(Seq<char>),
    MissingPreparedStatement(Seq<char>),
    ParseError(Seq<char>),
    Unimplemented(Seq<char>),
    Unknown(Seq<char>),
    Unsupported(Seq<char>),
    UnsupportedMessage(MessageKind),
    UnsupportedType(Type),
    PostgresError { code: Option<Seq<char>>, message: Seq<char> },
}

impl View for Error {
    type V = ErrorView;

    open spec fn view(&self) -> ErrorView {
        match *self {
            Error::AuthenticationFailure(s) => ErrorView::AuthenticationFailure(s@),
            Error::DecodeError(s) => ErrorView::DecodeError(s@),
            Error::EncodeError(s) => ErrorView::EncodeError(s@),
            Error::IncorrectFormatCount(n) => ErrorView::IncorrectFormatCount(n),
            Error::InternalError(s) => ErrorView::InternalError(s@),
            Error::InvalidInteger(s) => ErrorView::InvalidInteger(s@),
            Error::IoError(s) => ErrorView::IoError(s@),
            Error::MissingPortal(s) => ErrorView::MissingPortal(s@),
            Error::MissingPreparedStatement(s) => ErrorView::MissingPreparedStatement(s@),
            Error::ParseError(s) => ErrorView::ParseError(s@),
            Error::Unimplemented(s) => ErrorView::Unimplemented(s@),
            Error::Unknown(s) => ErrorView::Unknown(s@),
            Error::Unsupported(s) => ErrorView::Unsupported(s@),
            Error::UnsupportedMessage(kind) => ErrorView::UnsupportedMessage(kind),
            Error::UnsupportedType(ty) => ErrorView::UnsupportedType(ty),
            Error::PostgresError { code, message } => ErrorView::PostgresError {
                code: option_sqlstate_view(code),
                message: message@,
            },
        }
    }
}

/// The name of a request kind as it appears in messages.
pub open spec fn kind_name(kind: MessageKind) -> Seq<char> {
    match kind {
        MessageKind::Bind => "Bind"@,
        MessageKind::Close => "Close"@,
        MessageKind::Describe => "Describe"@,
        MessageKind::Execute => "Execute"@,
        MessageKind::Flush => "Flush"@,
        MessageKind::Parse => "Parse"@,
        MessageKind::PasswordMessage => "PasswordMessage"@,
        MessageKind::Query => "Query"@,
        MessageKind::SSLRequest => "SSLRequest"@,
        MessageKind::StartupMessage => "StartupMessage"@,
        MessageKind::Sync => "Sync"@,
        MessageKind::Terminate => "Terminate"@,
    }
}

fn kind_str(kind: MessageKind) -> (name: &'static str)
    ensures
        name@ == kind_name(kind),
{
    match kind {
        MessageKind::Bind => "Bind",
        MessageKind::Close => "Close",
        MessageKind::Describe => "Describe",
        MessageKind::Execute => "Execute",
        MessageKind::Flush => "Flush",
        MessageKind::Parse => "Parse",
        MessageKind::PasswordMessage => "PasswordMessage",
        MessageKind::Query => "Query",
        MessageKind::SSLRequest => "SSLRequest",
        MessageKind::StartupMessage => "StartupMessage",
        MessageKind::Sync => "Sync",
        MessageKind::Terminate => "Terminate",
    }
}

impl ErrorView {
    /// The text that describes the error to a person.
    pub open spec fn message(self) -> Seq<char> {
        match self {
            ErrorView::AuthenticationFailure(user) => "authentication failure for username: "@
                + user,
            ErrorView::DecodeError(m) => "decode error: "@ + m,
            ErrorView::EncodeError(m) => "encode error: "@ + m,
            ErrorView::IncorrectFormatCount(n) => "incorrect format count: "@ + decimal_text(
                n as nat,
            ),
            ErrorView::InternalError(m) => "internal error: "@ + m,
            ErrorView::InvalidInteger(m) => "invalid integer: "@ + m,
            ErrorView::IoError(m) => "io error: "@ + m,
            ErrorView::MissingPortal(name) => "missing portal: "@ + name,
            ErrorView::MissingPreparedStatement(name) => "missing prepared statement: "@ + name,
            ErrorView::ParseError(m) => "parse error: "@ + m,
            ErrorView::Unimplemented(m) => "unimplemented: "@ + m,
            ErrorView::Unknown(m) => "unknown error: "@ + m,
            ErrorView::Unsupported(m) => "unsupported: "@ + m,
            ErrorView::UnsupportedMessage(kind) => "unsupported message: "@ + kind_name(kind),
            ErrorView::UnsupportedType(ty) => "unsupported type: "@ + decimal_text(ty.oid as nat),
            ErrorView::PostgresError { code, message } => message,
        }
    }

    /// The SQLSTATE code under which the error is reported: by the class of the
    /// error, except that an error of the engine keeps the engine's code where
    /// it has one.
    pub open spec fn sqlstate(self) -> Seq<char> {
        match self {
            ErrorView::AuthenticationFailure(_) => sqlstate::INVALID_PASSWORD@,
            ErrorView::DecodeError(_) => sqlstate::IO_ERROR@,
            ErrorView::EncodeError(_) => sqlstate::IO_ERROR@,
            ErrorView::IncorrectFormatCount(_) => sqlstate::IO_ERROR@,
            ErrorView::InternalError(_) => sqlstate::INTERNAL_ERROR@,
            ErrorView::InvalidInteger(_) => sqlstate::DATATYPE_MISMATCH@,
            ErrorView::IoError(_) => sqlstate::IO_ERROR@,
            ErrorView::MissingPortal(_) => sqlstate::UNDEFINED_PSTATEMENT@,
            ErrorView::MissingPreparedStatement(_) => sqlstate::UNDEFINED_PSTATEMENT@,
            ErrorView::ParseError(_) => sqlstate::INVALID_PSTATEMENT_DEFINITION@,
            ErrorView::Unimplemented(_) => sqlstate::FEATURE_NOT_SUPPORTED@,
            ErrorView::Unknown(_) => sqlstate::INTERNAL_ERROR@,
            ErrorView::Unsupported(_) => sqlstate::FEATURE_NOT_SUPPORTED@,
            ErrorView::UnsupportedMessage(_) => sqlstate::FEATURE_NOT_SUPPORTED@,
            ErrorView::UnsupportedType(_) => sqlstate::FEATURE_NOT_SUPPORTED@,
            ErrorView::PostgresError { code, message } => match code {
                Some(code) => code,
                None => sqlstate::INTERNAL_ERROR@,
            },
        }
    }

    /// The error message sent to the frontend for this error.
    pub open spec fn response(self) -> BackendMessageView {
        BackendMessageView::ErrorResponse {
            severity: ErrorSeverity::Error,
            sqlstate: self.sqlstate(),
            message: self.message(),
        }
    }
}

impl Error {
    /// The text that describes the error to a person.
    pub fn message(&self) -> (text: String)
        ensures
            text@ == self@.message(),
    {
        match self {
            Error::AuthenticationFailure(user) => concat_str(
                "authentication failure for username: ",
                user.as_str(),
            ),
            Error::DecodeError(m) => concat_str("decode error: ", m.as_str()),
            Error::EncodeError(m) => concat_str("encode error: ", m.as_str()),
            Error::IncorrectFormatCount(n) => concat_str(
                "incorrect format count: ",
                decimal_string(*n as u64).as_str(),
            ),
            Error::InternalError(m) => concat_str("internal error: ", m.as_str()),
            Error::InvalidInteger(m) => concat_str("invalid integer: ", m.as_str()),
            Error::IoError(m) => concat_str("io error: ", m.as_str()),
            Error::MissingPortal(name) => concat_str("missing portal: ", name.as_str()),
            Error::MissingPreparedStatement(name) => concat_str(
                "missing prepared statement: ",
                name.as_str(),
            ),
            Error::ParseError(m) => concat_str("parse error: ", m.as_str()),
            Error::Unimplemented(m) => concat_str("unimplemented: ", m.as_str()),
            Error::Unknown(m) => concat_str("unknown error: ", m.as_str()),
            Error::Unsupported(m) => concat_str("unsupported: ", m.as_str()),
            Error::UnsupportedMessage(kind) => concat_str("unsupported message: ", kind_str(*kind)),
            Error::UnsupportedType(ty) => concat_str(
                "unsupported type: ",
                decimal_string(ty.oid as u64).as_str(),
            ),
            Error::PostgresError { code, message } => message.clone(),
        }
    }

    /// An internal error with the given text.
    pub fn internal(text: &str) -> (e: Error)
        ensures
            e@ == ErrorView::InternalError(text@),
    {
        Error::InternalError(text.to_owned())
    }
}

/// The error message that reports `error` to the frontend: severity `Error`,
/// the SQLSTATE code of the error's class, and the error's text.
pub fn make_error_response(error: Error) -> (response: BackendMessage)
    ensures
        response@ == error@.response(),
{
    let message = error.message();
    let sqlstate = match error {
        Error::AuthenticationFailure(_) => SqlState::from_code(sqlstate::INVALID_PASSWORD),
        Error::DecodeError(_) => SqlState::from_code(sqlstate::IO_ERROR),
        Error::EncodeError(_) => SqlState::from_code(sqlstate::IO_ERROR),
        Error::IncorrectFormatCount(_) => SqlState::from_code(sqlstate::IO_ERROR),
        Error::InternalError(_) => SqlState::from_code(sqlstate::INTERNAL_ERROR),
        Error::InvalidInteger(_) => SqlState::from_code(sqlstate::DATATYPE_MISMATCH),
        Error::IoError(_) => SqlState::from_code(sqlstate::IO_ERROR),
        Error::MissingPortal(_) => SqlState::from_code(sqlstate::UNDEFINED_PSTATEMENT),
        Error::MissingPreparedStatement(_) => SqlState::from_code(sqlstate::UNDEFINED_PSTATEMENT),
        Error::ParseError(_) => SqlState::from_code(sqlstate::INVALID_PSTATEMENT_DEFINITION),
        Error::Unimplemented(_) => SqlState::from_code(sqlstate::FEATURE_NOT_SUPPORTED),
        Error::Unknown(_) => SqlState::from_code(sqlstate::INTERNAL_ERROR),
        Error::Unsupported(_) => SqlState::from_code(sqlstate::FEATURE_NOT_SUPPORTED),
        Error::UnsupportedMessage(_) => SqlState::from_code(sqlstate::FEATURE_NOT_SUPPORTED),
        Error::UnsupportedType(_) => SqlState::from_code(sqlstate::FEATURE_NOT_SUPPORTED),
        Error::PostgresError { code, message: _ } => match code {
            Some(code) => code,
            None => SqlState::from_code(sqlstate::INTERNAL_ERROR),
        },
    };
    BackendMessage::ErrorResponse { severity: ErrorSeverity::Error, sqlstate, message }
}

} // verus!
