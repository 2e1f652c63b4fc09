//! The messages that travel between frontend and backend, as values.

use vstd::prelude::*;
use crate::pgtype::Type;
use crate::sqlstate::SqlState;

verus! {

/// Status byte of a `ReadyForQuery` message: the session is idle.
pub const READY_FOR_QUERY_IDLE: u8 = 73;

/// Answer byte to an SSL request: no TLS is available.
pub const SSL_RESPONSE_UNWILLING: u8 = 78;

/// The fixed table identifier of a field that belongs to no table.
pub const UNKNOWN_TABLE: i32 = 0;

/// The fixed column number of a field that belongs to no table.
pub const UNKNOWN_COLUMN: i16 = 0;

/// The type modifier of a field that has none.
pub const ATTTYPMOD_NONE: i32 = -1;

/// How the values of one result column travel.
#[derive(Clone, Copy, Debug, PartialEq, Eq, Structural)]
pub enum TransferFormat {
    Text,
    Binary,
}

/// The views of a list of strings, element by element.
pub open spec fn strings_view(v: Seq<String>) -> Seq<Seq<char>> {
    v.map_values(|s: String| s@)
}

pub open spec fn option_string_view(s: Option<String>) -> Option<Seq<char>> {
    match s {
        Some(s) => Some(s@),
        None => None,
    }
}

/// Names either a portal or a prepared statement.
#[derive(Clone, Debug, PartialEq, Eq)]
pub enum StatementName {
    Portal(String),
    PreparedStatement(String),
}

pub enum StatementNameView {
    Portal(Seq<char>),
    PreparedStatement(Seq<char>),
}

impl View for StatementName {
    type V = StatementNameView;

    open spec fn view(&self) -> StatementNameView {
        match *self {
            StatementName::Portal(name) => StatementNameView::Portal(name@),
            StatementName::PreparedStatement(name) => StatementNameView::PreparedStatement(name@),
        }
    }
}

/// The kinds of request a frontend can send.
#[derive(Clone, Copy, Debug, PartialEq, Eq, Structural)]
pub enum MessageKind {
    Bind,
    Close,
    Describe,
    Execute,
    Flush,
    Parse,
    PasswordMessage,
    Query,
    SSLRequest,
    StartupMessage,
    Sync,
    Terminate,
}

/// A decoded request from the frontend. `P` is the type of a bound parameter
/// value, which this layer stores and hands on without looking inside.
#[derive(Debug, PartialEq)]
pub enum FrontendMessage<P> {
    Bind {
        prepared_statement_name: String,
        portal_name: String,
        params: Vec<P>,
        result_transfer_formats: Vec<TransferFormat>,
    },
    Close { name: StatementName },
    Describe { name: StatementName },
    Execute { portal_name: String, limit: i32 },
    Flush,
    Parse { prepared_statement_name: String, query: String, parameter_data_types: Vec<Type> },
    PasswordMessage { password: String },
    Query { query: String },
    SSLRequest,
    StartupMessage { protocol_version: i32, user: Option<String>, database: Option<String> },
    Sync,
    Terminate,
}

pub enum FrontendMessageView<P> {
    Bind {
        prepared_statement_name: Seq<char>,
        portal_name: Seq<char>,
        params: Seq<P>,
        result_transfer_formats: Seq<TransferFormat>,
    },
    Close { name: StatementNameView },
    Describe { name: StatementNameView },
    Execute { portal_name: Seq<char>, limit: i32 },
    Flush,
    Parse { prepared_statement_name: Seq<char>, query: Seq<char>, parameter_data_types: Seq<Type> },
    PasswordMessage { password: Seq<char> },
    Query { query: Seq<char> },
    SSLRequest,
    StartupMessage { protocol_version: i32, user: Option<Seq<char>>, database: Option<Seq<char>> },
    Sync,
    Terminate,
}

impl<P> FrontendMessageView<P> {
    pub open spec fn kind(self) -> MessageKind {
        match self {
            FrontendMessageView::Bind { .. } => MessageKind::Bind,
            FrontendMessageView::Close { .. } => MessageKind::Close,
            FrontendMessageView::Describe { .. } => MessageKind::Describe,
            FrontendMessageView::Execute { .. } => MessageKind::Execute,
            FrontendMessageView::Flush => MessageKind::Flush,
            FrontendMessageView::Parse { .. } => MessageKind::Parse,
            FrontendMessageView::PasswordMessage { .. } => MessageKind::PasswordMessage,
            FrontendMessageView::Query { .. } => MessageKind::Query,
            FrontendMessageView::SSLRequest => MessageKind::SSLRequest,
            FrontendMessageView::StartupMessage { .. } => MessageKind::StartupMessage,
            FrontendMessageView::Sync => MessageKind::Sync,
            FrontendMessageView::Terminate => MessageKind::Terminate,
        }
    }
}

impl<P> View for FrontendMessage<P> {
    type V = FrontendMessageView<P>;

    open spec fn view(&self) -> FrontendMessageView<P> {
        match *self {
            FrontendMessage::Bind {
                prepared_statement_name,
                portal_name,
                params,
                result_transfer_formats,
            } => FrontendMessageView::Bind {
                prepared_statement_name: prepared_statement_name@,
                portal_name: portal_name@,
                params: params@,
                result_transfer_formats: result_transfer_formats@,
            },
            FrontendMessage::Close { name } => FrontendMessageView::Close { name: name@ },
            FrontendMessage::Describe { name } => FrontendMessageView::Describe { name: name@ },
            FrontendMessage::Execute { portal_name, limit } => FrontendMessageView::Execute {
                portal_name: portal_name@,
                limit,
            },
            FrontendMessage::Flush => FrontendMessageView::Flush,
            FrontendMessage::Parse {
                prepared_statement_name,
                query,
                parameter_data_types,
            } => FrontendMessageView::Parse {
                prepared_statement_name: prepared_statement_name@,
                query: query@,
                parameter_data_types: parameter_data_types@,
            },
            FrontendMessage::PasswordMessage { password } => FrontendMessageView::PasswordMessage {
                password: password@,
            },
            FrontendMessage::Query { query } => FrontendMessageView::Query { query: query@ },
            FrontendMessage::SSLRequest => FrontendMessageView::SSLRequest,
            FrontendMessage::StartupMessage {
                protocol_version,
                user,
                database,
            } => FrontendMessageView::StartupMessage {
                protocol_version,
                user: option_string_view(user),
                database: option_string_view(database),
            },
            FrontendMessage::Sync => FrontendMessageView::Sync,
            FrontendMessage::Terminate => FrontendMessageView::Terminate,
        }
    }
}

impl<P> FrontendMessage<P> {
    /// Which kind of request this is.
    pub fn kind(&self) -> (kind: MessageKind)
        ensures
            kind == self@.kind(),
    {
        match self {
            FrontendMessage::Bind { .. } => MessageKind::Bind,
            FrontendMessage::Close { .. } => MessageKind::Close,
            FrontendMessage::Describe { .. } => MessageKind::Describe,
            FrontendMessage::Execute { .. } => MessageKind::Execute,
            FrontendMessage::Flush => MessageKind::Flush,
            FrontendMessage::Parse { .. } => MessageKind::Parse,
            FrontendMessage::PasswordMessage { .. } => MessageKind::PasswordMessage,
            FrontendMessage::Query { .. } => MessageKind::Query,
            FrontendMessage::SSLRequest => MessageKind::SSLRequest,
            FrontendMessage::StartupMessage { .. } => MessageKind::StartupMessage,
            FrontendMessage::Sync => MessageKind::Sync,
            FrontendMessage::Terminate => MessageKind::Terminate,
        }
    }
}

/// One row of a simple-query result that is handed through as text: the names
/// of its columns and, for each, its value or `None` for SQL NULL.
#[derive(Clone, Debug, PartialEq, Eq)]
pub struct SimpleQueryRow {
    pub columns: Vec<String>,
    pub values: Vec<Option<String>>,
}

pub struct SimpleQueryRowView {
    pub columns: Seq<Seq<char>>,
    pub values: Seq<Option<Seq<char>>>,
}

impl View for SimpleQueryRow {
    type V = SimpleQueryRowView;

    open spec fn view(&self) -> SimpleQueryRowView {
        SimpleQueryRowView {
            columns: strings_view(self.columns@),
            values: self.values@.map_values(|v: Option<String>| option_string_view(v)),
        }
    }
}

impl SimpleQueryRowView {
    /// The value at `index`: `None` where the row has no such column or the
    /// value is NULL.
    pub open spec fn get(self, index: int) -> Option<Seq<char>> {
        if 0 <= index < self.values.len() {
            self.values[index]
        } else {
            None
        }
    }
}

impl SimpleQueryRow {
    /// The value at `index`, if the row has that column and it is not NULL.
    pub fn get(&self, index: usize) -> (value: Option<&str>)
        ensures
            match value {
                Some(v) => self@.get(index as int) == Some(v@),
                None => self@.get(index as int) is None,
            },
    {
        if index < self.values.len() {
            match &self.values[index] {
                Some(v) => Some(v.as_str()),
                None => None,
            }
        } else {
            None
        }
    }
}

/// Describes one column of a result.
#[derive(Clone, Debug, PartialEq, Eq)]
pub struct FieldDescription {
    pub field_name: String,
    pub table_id: i32,
    pub col_id: i16,
    pub data_type: Type,
    pub data_type_size: i16,
    pub type_modifier: i32,
    pub transfer_format: TransferFormat,
}

pub struct FieldDescriptionView {
    pub field_name: Seq<char>,
    pub table_id: i32,
    pub col_id: i16,
    pub data_type: Type,
    pub data_type_size: i16,
    pub type_modifier: i32,
    pub transfer_format: TransferFormat,
}

impl View for FieldDescription {
    type V = FieldDescriptionView;

    open spec fn view(&self) -> FieldDescriptionView {
        FieldDescriptionView {
            field_name: self.field_name@,
            table_id: self.table_id,
            col_id: self.col_id,
            data_type: self.data_type,
            data_type_size: self.data_type_size,
            type_modifier: self.type_modifier,
            transfer_format: self.transfer_format,
        }
    }
}

pub open spec fn fields_view(v: Seq<FieldDescription>) -> Seq<FieldDescriptionView> {
    v.map_values(|f: FieldDescription| f@)
}

/// What a completed command reports.
#[derive(Clone, Copy, Debug, PartialEq, Eq, Structural)]
pub enum CommandCompleteTag {
    Empty,
    Delete(u64),
    Insert(u64),
    Select(u64),
    Update(u64),
}

#[derive(Clone, Copy, Debug, PartialEq, Eq, Structural)]
pub enum ErrorSeverity {
    Error,
    Fatal,
    Panic,
}

/// A message for the frontend.
#[derive(Debug, PartialEq)]
pub enum BackendMessage {
    AuthenticationCleartextPassword,
    AuthenticationOk,
    BindComplete,
    CloseComplete,
    CommandComplete { tag: CommandCompleteTag },
    ErrorResponse { severity: ErrorSeverity, sqlstate: SqlState, message: String },
    ParameterDescription { parameter_data_types: Vec<Type> },
    ParameterStatus { parameter_name: String, parameter_value: String },
    ParseComplete,
    /// A row description made of the column names of a row handed through.
    PassThroughRowDescription(Vec<String>),
    /// A data row handed through as the engine gave it.
    PassThroughDataRow(SimpleQueryRow),
    ReadyForQuery { status: u8 },
    RowDescription { field_descriptions: Vec<FieldDescription> },
    SSLResponse { byte: u8 },
}

pub enum BackendMessageView {
    AuthenticationCleartextPassword,
    AuthenticationOk,
    BindComplete,
    CloseComplete,
    CommandComplete { tag: CommandCompleteTag },
    ErrorResponse { severity: ErrorSeverity, sqlstate: Seq<char>, message: Seq<char> },
    ParameterDescription { parameter_data_types: Seq<Type> },
    ParameterStatus { parameter_name: Seq<char>, parameter_value: Seq<char> },
    ParseComplete,
    PassThroughRowDescription(Seq<Seq<char>>),
    PassThroughDataRow(SimpleQueryRowView),
    ReadyForQuery { status: u8 },
    RowDescription { field_descriptions: Seq<FieldDescriptionView> },
    SSLResponse { byte: u8 },
}

impl View for BackendMessage {
    type V = BackendMessageView;

    open spec fn view(&self) -> BackendMessageView {
        match *self {
            BackendMessage::AuthenticationCleartextPassword =>
                BackendMessageView::AuthenticationCleartextPassword,
            BackendMessage::AuthenticationOk => BackendMessageView::AuthenticationOk,
            BackendMessage::BindComplete => BackendMessageView::BindComplete,
            BackendMessage::CloseComplete => BackendMessageView::CloseComplete,
            BackendMessage::CommandComplete { tag } => BackendMessageView::CommandComplete { tag },
            BackendMessage::ErrorResponse {
                severity,
                sqlstate,
                message,
            } => BackendMessageView::ErrorResponse {
                severity,
                sqlstate: sqlstate@,
                message: message@,
            },
            BackendMessage::ParameterDescription {
                parameter_data_types,
            } => BackendMessageView::ParameterDescription {
                parameter_data_types: parameter_data_types@,
            },
            BackendMessage::ParameterStatus {
                parameter_name,
                parameter_value,
            } => BackendMessageView::ParameterStatus {
                parameter_name: parameter_name@,
                parameter_value: parameter_value@,
            },
            BackendMessage::ParseComplete => BackendMessageView::ParseComplete,
            BackendMessage::PassThroughRowDescription(columns) =>
                BackendMessageView::PassThroughRowDescription(strings_view(columns@)),
            BackendMessage::PassThroughDataRow(row) => BackendMessageView::PassThroughDataRow(row@),
            BackendMessage::ReadyForQuery { status } => BackendMessageView::ReadyForQuery { status },
            BackendMessage::RowDescription {
                field_descriptions,
            } => BackendMessageView::RowDescription {
                field_descriptions: fields_view(field_descriptions@),
            },
            BackendMessage::SSLResponse { byte } => BackendMessageView::SSLResponse { byte },
        }
    }
}

pub open spec fn messages_view(v: Seq<BackendMessage>) -> Seq<BackendMessageView> {
    v.map_values(|m: BackendMessage| m@)
}

pub open spec fn option_message_view(m: Option<BackendMessage>) -> Option<BackendMessageView> {
    match m {
        Some(m) => Some(m@),
        None => None,
    }
}

impl BackendMessageView {
    /// The message that tells the frontend the session is idle.
    pub open spec fn ready_for_query_idle() -> BackendMessageView {
        BackendMessageView::ReadyForQuery { status: READY_FOR_QUERY_IDLE }
    }

    /// The message that turns an SSL request down.
    pub open spec fn ssl_response_n() -> BackendMessageView {
        BackendMessageView::SSLResponse { byte: SSL_RESPONSE_UNWILLING }
    }

    /// Announces one session parameter.
    pub open spec fn parameter_status(name: Seq<char>, value: Seq<char>) -> BackendMessageView {
        BackendMessageView::ParameterStatus { parameter_name: name, parameter_value: value }
    }
}

impl BackendMessage {
    pub fn ready_for_query_idle() -> (m: BackendMessage)
        ensures
            m@ == BackendMessageView::ready_for_query_idle(),
    {
        BackendMessage::ReadyForQuery { status: READY_FOR_QUERY_IDLE }
    }

    pub fn ssl_response_n() -> (m: BackendMessage)
        ensures
            m@ == BackendMessageView::ssl_response_n(),
    {
        BackendMessage::SSLResponse { byte: SSL_RESPONSE_UNWILLING }
    }

    pub fn parameter_status(name: &str, value: String) -> (m: BackendMessage)
        ensures
            m@ == BackendMessageView::parameter_status(name@, value@),
    {
        BackendMessage::ParameterStatus { parameter_name: name.to_owned(), parameter_value: value }
    }
}

} // verus!
