//! The engine that runs the SQL, as a session sees it: what it is asked and
//! what it answers.

use vstd::prelude::*;
use crate::error::{Error, ErrorView};
use crate::message::{strings_view, SimpleQueryRow, SimpleQueryRowView};
use crate::pgtype::Type;

verus! {

/// What the engine asks of a client that wants to connect.
#[derive(Clone, Copy, Debug, PartialEq, Eq, Structural)]
pub enum CredentialsNeeded {
    /// The client is let in as it is.
    Nothing,
    /// The client has to send a password in clear text.
    Cleartext,
}

/// What a client presents to be let in.
#[derive(Clone, Debug, PartialEq, Eq)]
pub enum Credentials {
    Cleartext { user: String, password: String },
}

/// One column of a result: its name and its type.
#[derive(Clone, Debug, PartialEq, Eq)]
pub struct Column {
    pub name: String,
    pub col_type: Type,
}

pub struct ColumnView {
    pub name: Seq<char>,
    pub col_type: Type,
}

impl View for Column {
    type V = ColumnView;

    open spec fn view(&self) -> ColumnView {
        ColumnView { name: self.name@, col_type: self.col_type }
    }
}

pub open spec fn columns_view(v: Seq<Column>) -> Seq<ColumnView> {
    v.map_values(|c: Column| c@)
}

/// What the engine knows of a statement it has prepared.
#[derive(Clone, Debug, PartialEq, Eq)]
pub struct PrepareResponse {
    pub prepared_statement_id: u32,
    pub param_schema: Vec<Type>,
    pub row_schema: Vec<Column>,
}

pub struct PrepareResponseView {
    pub prepared_statement_id: u32,
    pub param_schema: Seq<Type>,
    pub row_schema: Seq<ColumnView>,
}

impl View for PrepareResponse {
    type V = PrepareResponseView;

    open spec fn view(&self) -> PrepareResponseView {
        PrepareResponseView {
            prepared_statement_id: self.prepared_statement_id,
            param_schema: self.param_schema@,
            row_schema: columns_view(self.row_schema@),
        }
    }
}

/// One event of a query that the engine ran as text and hands through.
#[derive(Clone, Debug, PartialEq, Eq)]
pub enum SimpleQueryMessage {
    /// A row of data.
    Row(SimpleQueryRow),
    /// A statement has completed, with the number of rows it touched.
    CommandComplete(u64),
    /// The names of the columns of the rows that follow.
    RowDescription(Vec<String>),
    /// Any other event.
    Other,
}

pub enum SimpleQueryMessageView {
    Row(SimpleQueryRowView),
    CommandComplete(u64),
    RowDescription(Seq<Seq<char>>),
    Other,
}

impl View for SimpleQueryMessage {
    type V = SimpleQueryMessageView;

    open spec fn view(&self) -> SimpleQueryMessageView {
        match *self {
            SimpleQueryMessage::Row(row) => SimpleQueryMessageView::Row(row@),
            SimpleQueryMessage::CommandComplete(n) => SimpleQueryMessageView::CommandComplete(n),
            SimpleQueryMessage::RowDescription(names) => SimpleQueryMessageView::RowDescription(
                strings_view(names@),
            ),
            SimpleQueryMessage::Other => SimpleQueryMessageView::Other,
        }
    }
}

pub open spec fn events_view(v: Seq<SimpleQueryMessage>) -> Seq<SimpleQueryMessageView> {
    v.map_values(|m: SimpleQueryMessage| m@)
}

/// What the engine answers to a query or to the execution of a statement.
#[derive(Debug, PartialEq)]
pub enum QueryResponse<S> {
    /// Rows, with the schema of their columns.
    Select { schema: Vec<Column>, resultset: S },
    /// Rows were inserted.
    Insert(u64),
    /// Rows were updated.
    Update(u64),
    /// Rows were deleted.
    Delete(u64),
    /// Some other command ran.
    Command,
    /// The events of a query that was handed through as text.
    SimpleQuery(Vec<SimpleQueryMessage>),
}

pub enum QueryResponseView<S> {
    Select { schema: Seq<ColumnView>, resultset: S },
    Insert(u64),
    Update(u64),
    Delete(u64),
    Command,
    SimpleQuery(Seq<SimpleQueryMessageView>),
}

impl<S> View for QueryResponse<S> {
    type V = QueryResponseView<S>;

    open spec fn view(&self) -> QueryResponseView<S> {
        match *self {
            QueryResponse::Select { schema, resultset } => QueryResponseView::Select {
                schema: columns_view(schema@),
                resultset,
            },
            QueryResponse::Insert(n) => QueryResponseView::Insert(n),
            QueryResponse::Update(n) => QueryResponseView::Update(n),
            QueryResponse::Delete(n) => QueryResponseView::Delete(n),
            QueryResponse::Command => QueryResponseView::Command,
            QueryResponse::SimpleQuery(events) => QueryResponseView::SimpleQuery(
                events_view(events@),
            ),
        }
    }
}

pub open spec fn init_view(r: Result<CredentialsNeeded, Error>) -> Result<
    CredentialsNeeded,
    ErrorView,
> {
    match r {
        Ok(needed) => Ok(needed),
        Err(e) => Err(e@),
    }
}

pub open spec fn unit_view(r: Result<(), Error>) -> Result<(), ErrorView> {
    match r {
        Ok(_) => Ok(()),
        Err(e) => Err(e@),
    }
}

pub open spec fn prepare_view(r: Result<PrepareResponse, Error>) -> Result<
    PrepareResponseView,
    ErrorView,
> {
    match r {
        Ok(p) => Ok(p@),
        Err(e) => Err(e@),
    }
}

pub open spec fn query_view<S>(r: Result<QueryResponse<S>, Error>) -> Result<
    QueryResponseView<S>,
    ErrorView,
> {
    match r {
        Ok(q) => Ok(q@),
        Err(e) => Err(e@),
    }
}

/// The engine that runs the SQL. A session hands it what the frontend asks for
/// and turns its answers into messages; it makes no assumption on what the
/// engine answers.
pub trait Backend {
    /// A parameter value of a bound statement.
    type Value;

    /// The rows of a result.
    type Resultset;

    /// Opens the named database and says which credentials it wants.
    fn on_init(&mut self, database: &str) -> Result<CredentialsNeeded, Error>;

    /// Checks the credentials that the client sent.
    fn on_auth(&mut self, credentials: Credentials) -> Result<(), Error>;

    /// Runs a query given as text.
    fn on_query(&mut self, query: &str) -> Result<QueryResponse<Self::Resultset>, Error>;

    /// Prepares a statement and reports its handle and its schemas.
    fn on_prepare(&mut self, query: &str) -> Result<PrepareResponse, Error>;

    /// Runs a prepared statement with the given parameter values.
    fn on_execute(&mut self, statement_id: u32, params: &[Self::Value]) -> Result<
        QueryResponse<Self::Resultset>,
        Error,
    >;

    /// Lets go of a prepared statement.
    fn on_close(&mut self, statement_id: u32) -> Result<(), Error>;

    /// The version that the engine announces to clients.
    fn version(&self) -> String;
}

} // verus!
