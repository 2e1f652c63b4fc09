//! The session as a mathematical object: what each request does to the state
//! of the session and of the framing, which calls it makes on the engine, and
//! what it answers, as a function of what the engine answers.

use vstd::prelude::*;
use crate::backend::{
    ColumnView, CredentialsNeeded, PrepareResponseView, QueryResponseView, SimpleQueryMessageView,
};
use crate::channel::ChannelView;
use crate::error::ErrorView;
use crate::message::{
    BackendMessageView, CommandCompleteTag, FieldDescriptionView, FrontendMessageView,
    SimpleQueryRowView, StatementNameView, TransferFormat, ATTTYPMOD_NONE, UNKNOWN_COLUMN,
    UNKNOWN_TABLE,
};
use crate::pgtype::{Kind, Type};
use crate::response::ResponseView;
use crate::text::{parsed_i16, parsed_u32};
use crate::typlen::{builtin_type_size, TYPLEN_VARLENA};

verus! {

/// The query that asks the engine's catalog for the size of every type.
pub const CATALOG_QUERY: &'static str = "select oid, typlen from pg_catalog.pg_type";

/// Where a session stands in the flow of requests and responses.
pub enum StateView {
    StartingUp,
    Authenticating { user: Seq<char> },
    Ready,
    Extended,
    Error,
}

pub struct StatementView {
    pub prepared_statement_id: u32,
    pub param_schema: Seq<Type>,
    pub row_schema: Seq<ColumnView>,
}

pub struct PortalView<P> {
    pub prepared_statement_id: u32,
    pub prepared_statement_name: Seq<char>,
    pub params: Seq<P>,
    pub result_transfer_formats: Seq<TransferFormat>,
}

/// A call on the engine.
pub enum EngineCall<P> {
    Init { database: Seq<char> },
    Auth { user: Seq<char>, password: Seq<char> },
    Query { query: Seq<char> },
    Prepare { query: Seq<char> },
    Execute { statement_id: u32, params: Seq<P> },
    Close { statement_id: u32 },
}

/// The state of a session: where it stands, its prepared statements and
/// portals by name, the sizes of the types it has learnt from the catalog, and
/// every call it has made on the engine, oldest first.
pub struct ProtocolView<P> {
    pub state: StateView,
    pub prepared_statements: Map<Seq<char>, StatementView>,
    pub portals: Map<Seq<char>, PortalView<P>>,
    pub extended_types: Map<u32, i16>,
    pub engine_log: Seq<EngineCall<P>>,
}

/// What the engine answers to each kind of call that one request can make.
/// A request makes at most one call of each kind, but for a query that is
/// followed by a look into the catalog; the answer to the latter is `catalog`.
pub struct EngineAnswers<S> {
    pub init: Result<CredentialsNeeded, ErrorView>,
    pub auth: Result<(), ErrorView>,
    pub version: Seq<char>,
    pub prepare: Result<PrepareResponseView, ErrorView>,
    pub execute: Result<QueryResponseView<S>, ErrorView>,
    pub query: Result<QueryResponseView<S>, ErrorView>,
    pub catalog: Result<QueryResponseView<S>, ErrorView>,
    pub close: Result<(), ErrorView>,
}

/// What handling one request leads to.
pub struct Outcome<P, S> {
    pub protocol: ProtocolView<P>,
    pub channel: ChannelView,
    pub result: Result<ResponseView<S>, ErrorView>,
}

impl<P> ProtocolView<P> {
    /// The session of a fresh connection.
    pub open spec fn initial() -> ProtocolView<P> {
        ProtocolView {
            state: StateView::StartingUp,
            prepared_statements: Map::empty(),
            portals: Map::empty(),
            extended_types: Map::empty(),
            engine_log: Seq::empty(),
        }
    }

    pub open spec fn with_state(self, state: StateView) -> ProtocolView<P> {
        ProtocolView { state, ..self }
    }

    pub open spec fn with_call(self, call: EngineCall<P>) -> ProtocolView<P> {
        ProtocolView { engine_log: self.engine_log.push(call), ..self }
    }

    pub open spec fn with_extended_types(self, extended_types: Map<u32, i16>) -> ProtocolView<P> {
        ProtocolView { extended_types, ..self }
    }

    pub open spec fn with_engine_log(self, engine_log: Seq<EngineCall<P>>) -> ProtocolView<P> {
        ProtocolView { engine_log, ..self }
    }
}

// ----- the ready sequence -----

/// The messages that tell a client it is let in: the authentication is fine,
/// five session parameters, the last of which is the engine's version, and the
/// session is idle.
pub open spec fn ready_sequence(version: Seq<char>) -> Seq<BackendMessageView> {
    seq![
        BackendMessageView::AuthenticationOk,
        BackendMessageView::parameter_status("client_encoding"@, "UTF8"@),
        BackendMessageView::parameter_status("DateStyle"@, "ISO"@),
        BackendMessageView::parameter_status("TimeZone"@, "UTC"@),
        BackendMessageView::parameter_status("standard_conforming_strings"@, "on"@),
        BackendMessageView::parameter_status("server_version"@, version),
        BackendMessageView::ready_for_query_idle(),
    ]
}

// ----- result formats -----

/// `n` times the format `format`.
pub open spec fn repeated_format(format: TransferFormat, n: nat) -> Seq<TransferFormat> {
    Seq::new(n, |i: int| format)
}

/// The format of each of `n` result columns, from the formats that a bind
/// request names: none stands for text throughout, one stands for all columns,
/// and any other number has to be `n`.
pub open spec fn resolved_formats(given: Seq<TransferFormat>, n: nat) -> Option<
    Seq<TransferFormat>,
> {
    if given.len() == 0 {
        Some(repeated_format(TransferFormat::Text, n))
    } else if given.len() == 1 {
        Some(repeated_format(given[0], n))
    } else if given.len() == n {
        Some(given)
    } else {
        None
    }
}

// ----- the catalog of type sizes -----

pub open spec fn catalog_error(detail: Seq<char>) -> ErrorView {
    ErrorView::InternalError("failed while loading extended type information: "@ + detail)
}

/// The type and size that one row of the catalog gives: its first value read
/// as a type identifier, its second as a size.
pub open spec fn catalog_entry(row: SimpleQueryRowView) -> Result<(u32, i16), ErrorView> {
    match (row.get(0), row.get(1)) {
        (Some(oid), Some(typlen)) => match parsed_u32(oid) {
            None => Err(catalog_error("could not parse oid"@)),
            Some(oid) => match parsed_i16(typlen) {
                None => Err(catalog_error("could not parse typlen"@)),
                Some(typlen) => Ok((oid, typlen)),
            },
        },
        _ => Err(catalog_error("wrong number of columns returned from upstream"@)),
    }
}

/// The sizes that the first `k` events of a catalog answer give, or the error
/// of the first row among them that gives none. Events that are no rows count
/// for nothing; of two rows for one type the later one holds.
pub open spec fn catalog_prefix(events: Seq<SimpleQueryMessageView>, k: nat) -> Result<
    Map<u32, i16>,
    ErrorView,
>
    decreases k,
{
    if k == 0 {
        Ok(Map::empty())
    } else {
        match catalog_prefix(events, (k - 1) as nat) {
            Err(e) => Err(e),
            Ok(sizes) => match events[k - 1] {
                SimpleQueryMessageView::Row(row) => match catalog_entry(row) {
                    Ok(entry) => Ok(sizes.insert(entry.0, entry.1)),
                    Err(e) => Err(e),
                },
                _ => Ok(sizes),
            },
        }
    }
}

/// The type sizes that the engine's answer to the catalog query gives.
pub open spec fn catalog_sizes<S>(response: QueryResponseView<S>) -> Result<
    Map<u32, i16>,
    ErrorView,
> {
    match response {
        QueryResponseView::SimpleQuery(events) => catalog_prefix(events, events.len()),
        _ => Err(catalog_error("wrong query response type"@)),
    }
}

// ----- field descriptions -----

/// The size of a type that is known without the catalog: arrays and
/// enumerations are of varying length, the built-in types have the size of the
/// built-in table.
pub open spec fn static_type_size(ty: Type) -> Option<i16> {
    if ty.kind == Kind::Array || ty.kind == Kind::Enum {
        Some(TYPLEN_VARLENA)
    } else {
        builtin_type_size(ty.oid)
    }
}

/// The size that the sizes learnt from the catalog give for a type.
pub open spec fn cached_type_size(ty: Type, cache: Map<u32, i16>) -> Result<i16, ErrorView> {
    if cache.contains_key(ty.oid) {
        Ok(cache[ty.oid])
    } else {
        Err(ErrorView::UnsupportedType(ty))
    }
}

/// The outcome of finding the size of one type: the sizes learnt from the
/// catalog afterwards, whether the engine was asked for the catalog, and the
/// size or the reason for which there is none.
pub struct Sizing {
    pub cache: Map<u32, i16>,
    pub asked: bool,
    pub size: Result<i16, ErrorView>,
}

/// Whether the engine has to be asked for its catalog to find the size of a
/// type: the size is not known statically, and nothing has been learnt from
/// the catalog yet.
pub open spec fn needs_catalog(ty: Type, cache: Map<u32, i16>) -> bool {
    static_type_size(ty) is None && cache.is_empty()
}

/// Finds the size of a type. The engine is asked exactly where
/// [`needs_catalog`] says so; what was learnt once is taken to be complete.
pub open spec fn size_type<S>(
    ty: Type,
    cache: Map<u32, i16>,
    catalog: Result<QueryResponseView<S>, ErrorView>,
) -> Sizing {
    if needs_catalog(ty, cache) {
        match catalog {
            Err(e) => Sizing { cache, asked: true, size: Err(e) },
            Ok(response) => match catalog_sizes(response) {
                Err(e) => Sizing { cache, asked: true, size: Err(e) },
                Ok(loaded) => Sizing {
                    cache: loaded,
                    asked: true,
                    size: cached_type_size(ty, loaded),
                },
            },
        }
    } else {
        Sizing {
            cache,
            asked: false,
            size: match static_type_size(ty) {
                Some(size) => Ok(size),
                None => cached_type_size(ty, cache),
            },
        }
    }
}

/// The calls on the engine after columns were described: what they were
/// before, followed by the catalog query if the engine was asked.
pub open spec fn log_after_asking<P>(log: Seq<EngineCall<P>>, asked: bool) -> Seq<EngineCall<P>> {
    if asked {
        log.push(EngineCall::Query { query: CATALOG_QUERY@ })
    } else {
        log
    }
}

/// The description of a column sent in the given format, with the given size
/// for its type. It names no table.
pub open spec fn field_description(
    column: ColumnView,
    format: TransferFormat,
    size: i16,
) -> FieldDescriptionView {
    FieldDescriptionView {
        field_name: column.name,
        table_id: UNKNOWN_TABLE,
        col_id: UNKNOWN_COLUMN,
        data_type: column.col_type,
        data_type_size: size,
        type_modifier: ATTTYPMOD_NONE,
        transfer_format: format,
    }
}

/// The format of column `i`: the `i`-th of the given formats, or text where
/// none are given.
pub open spec fn format_at(formats: Option<Seq<TransferFormat>>, i: int) -> TransferFormat {
    match formats {
        Some(f) => f[i],
        None => TransferFormat::Text,
    }
}

/// How many columns are described: all of them, or as many as have a format
/// where formats are given.
pub open spec fn described_count(
    columns: Seq<ColumnView>,
    formats: Option<Seq<TransferFormat>>,
) -> nat {
    match formats {
        Some(f) => if f.len() < columns.len() {
            f.len()
        } else {
            columns.len()
        },
        None => columns.len(),
    }
}

/// The outcome of describing columns: the sizes learnt from the catalog
/// afterwards, whether the engine was asked for the catalog, and the
/// descriptions or the first error.
pub struct Described {
    pub cache: Map<u32, i16>,
    pub asked: bool,
    pub fields: Result<Seq<FieldDescriptionView>, ErrorView>,
}

/// Describes the first `k` columns, in order, stopping at the first error.
pub open spec fn describe_prefix<S>(
    columns: Seq<ColumnView>,
    formats: Option<Seq<TransferFormat>>,
    cache: Map<u32, i16>,
    catalog: Result<QueryResponseView<S>, ErrorView>,
    k: nat,
) -> Described
    decreases k,
{
    if k == 0 {
        Described { cache, asked: false, fields: Ok(Seq::empty()) }
    } else {
        let before = describe_prefix(columns, formats, cache, catalog, (k - 1) as nat);
        match before.fields {
            Err(_) => before,
            Ok(fields) => {
                let column = columns[k - 1];
                let sizing = size_type(column.col_type, before.cache, catalog);
                Described {
                    cache: sizing.cache,
                    asked: before.asked || sizing.asked,
                    fields: match sizing.size {
                        Ok(size) => Ok(
                            fields.push(field_description(column, format_at(formats, k - 1), size)),
                        ),
                        Err(e) => Err(e),
                    },
                }
            },
        }
    }
}

/// Describes the columns of a result.
pub open spec fn describe<S>(
    columns: Seq<ColumnView>,
    formats: Option<Seq<TransferFormat>>,
    cache: Map<u32, i16>,
    catalog: Result<QueryResponseView<S>, ErrorView>,
) -> Described {
    describe_prefix(columns, formats, cache, catalog, described_count(columns, formats))
}

// ----- command results -----

/// The tag that reports a command result; `None` for a result that is no
/// command result.
pub open spec fn command_tag<S>(response: QueryResponseView<S>) -> Option<CommandCompleteTag> {
    match response {
        QueryResponseView::Insert(n) => Some(CommandCompleteTag::Insert(n)),
        QueryResponseView::Update(n) => Some(CommandCompleteTag::Update(n)),
        QueryResponseView::Delete(n) => Some(CommandCompleteTag::Delete(n)),
        QueryResponseView::Command => Some(CommandCompleteTag::Empty),
        _ => None,
    }
}

// ----- results handed through -----

/// The messages for a run of events, and whether a run of rows is open at its
/// end.
pub struct Folded {
    pub messages: Result<Seq<BackendMessageView>, ErrorView>,
    pub in_rows: bool,
}

/// The messages for the first `k` events of a result that is handed through.
/// The first row of a run of rows is preceded by a description made of its
/// column names; a completed command is reported as a selection where it ends
/// a run of rows, else as an insertion. An announcement of columns counts for
/// nothing, since every row carries its columns; any other event is an error.
pub open spec fn fold_prefix(events: Seq<SimpleQueryMessageView>, k: nat) -> Folded
    decreases k,
{
    if k == 0 {
        Folded { messages: Ok(Seq::empty()), in_rows: false }
    } else {
        let before = fold_prefix(events, (k - 1) as nat);
        match before.messages {
            Err(_) => before,
            Ok(messages) => match events[k - 1] {
                SimpleQueryMessageView::Row(row) => Folded {
                    messages: Ok(
                        (if before.in_rows {
                            messages
                        } else {
                            messages.push(BackendMessageView::PassThroughRowDescription(row.columns))
                        }).push(BackendMessageView::PassThroughDataRow(row)),
                    ),
                    in_rows: true,
                },
                SimpleQueryMessageView::CommandComplete(n) => Folded {
                    messages: Ok(
                        messages.push(
                            BackendMessageView::CommandComplete {
                                tag: if before.in_rows {
                                    CommandCompleteTag::Select(n)
                                } else {
                                    CommandCompleteTag::Insert(n)
                                },
                            },
                        ),
                    ),
                    in_rows: false,
                },
                SimpleQueryMessageView::RowDescription(_) => before,
                SimpleQueryMessageView::Other => Folded {
                    messages: Err(
                        ErrorView::InternalError("Unexpected SimpleQuery message variant"@),
                    ),
                    in_rows: before.in_rows,
                },
            },
        }
    }
}

/// The messages for a result that is handed through, closed by the message
/// that the session is idle.
pub open spec fn simple_query_messages(events: Seq<SimpleQueryMessageView>) -> Result<
    Seq<BackendMessageView>,
    ErrorView,
> {
    match fold_prefix(events, events.len()).messages {
        Ok(messages) => Ok(messages.push(BackendMessageView::ready_for_query_idle())),
        Err(e) => Err(e),
    }
}

// ----- the requests -----

pub open spec fn unchanged<P, S>(
    protocol: ProtocolView<P>,
    channel: ChannelView,
    result: Result<ResponseView<S>, ErrorView>,
) -> Outcome<P, S> {
    Outcome { protocol, channel, result }
}

pub open spec fn unsupported_message<P, S>(
    protocol: ProtocolView<P>,
    channel: ChannelView,
    message: FrontendMessageView<P>,
) -> Outcome<P, S> {
    Outcome { protocol, channel, result: Err(ErrorView::UnsupportedMessage(message.kind())) }
}

/// A session that is let in answers with the ready sequence and is `Ready`.
pub open spec fn let_in<P, S>(
    protocol: ProtocolView<P>,
    channel: ChannelView,
    version: Seq<char>,
) -> Outcome<P, S> {
    Outcome {
        protocol: protocol.with_state(StateView::Ready),
        channel,
        result: Ok(ResponseView::Messages(ready_sequence(version))),
    }
}

/// What follows once the engine has said which credentials it wants: a
/// client that needs none is let in; one that needs a password is asked for
/// it, if it named a user, and refused if it did not.
pub open spec fn init_outcome<P, S>(
    protocol: ProtocolView<P>,
    channel: ChannelView,
    user: Option<Seq<char>>,
    needed: CredentialsNeeded,
    version: Seq<char>,
) -> Outcome<P, S> {
    match needed {
        CredentialsNeeded::Nothing => let_in(protocol, channel.with_start_up_complete(), version),
        CredentialsNeeded::Cleartext => match user {
            None => unchanged(
                protocol,
                channel,
                Err(ErrorView::AuthenticationFailure(Seq::empty())),
            ),
            Some(user) => Outcome {
                protocol: protocol.with_state(StateView::Authenticating { user }),
                channel: channel.with_start_up_complete(),
                result: Ok(
                    ResponseView::Messages(
                        seq![BackendMessageView::AuthenticationCleartextPassword],
                    ),
                ),
            },
        },
    }
}

/// A start-up request: the database is opened on the engine, which says
/// whether the client is let in at once or has to send a password first.
pub open spec fn step_startup<P, S>(
    protocol: ProtocolView<P>,
    channel: ChannelView,
    database: Option<Seq<char>>,
    user: Option<Seq<char>>,
    answers: EngineAnswers<S>,
) -> Outcome<P, S> {
    match database {
        None => unchanged(
            protocol,
            channel,
            Err(ErrorView::Unsupported("database is required"@)),
        ),
        Some(database) => {
            let asked = protocol.with_call(EngineCall::Init { database });
            match answers.init {
                Err(e) => unchanged(asked, channel, Err(e)),
                Ok(needed) => init_outcome(asked, channel, user, needed, answers.version),
            }
        },
    }
}

/// A request in the state `StartingUp`.
pub open spec fn step_starting_up<P, S>(
    protocol: ProtocolView<P>,
    channel: ChannelView,
    message: FrontendMessageView<P>,
    answers: EngineAnswers<S>,
) -> Outcome<P, S> {
    match message {
        FrontendMessageView::SSLRequest => unchanged(
            protocol,
            channel,
            Ok(ResponseView::Message(BackendMessageView::ssl_response_n())),
        ),
        FrontendMessageView::StartupMessage { protocol_version, user, database } => step_startup(
            protocol,
            channel,
            database,
            user,
            answers,
        ),
        _ => unsupported_message(protocol, channel, message),
    }
}

/// A request in the state `Authenticating`.
pub open spec fn step_authenticating<P, S>(
    protocol: ProtocolView<P>,
    channel: ChannelView,
    user: Seq<char>,
    message: FrontendMessageView<P>,
    answers: EngineAnswers<S>,
) -> Outcome<P, S> {
    match message {
        FrontendMessageView::PasswordMessage { password } => {
            let asked = protocol.with_call(EngineCall::Auth { user, password });
            match answers.auth {
                Err(e) => unchanged(asked, channel, Err(e)),
                Ok(_) => let_in(asked, channel, answers.version),
            }
        },
        _ => unsupported_message(protocol, channel, message),
    }
}

/// A bind request: makes the portal `portal_name` of the statement
/// `prepared_statement_name`, replacing any portal of that name.
pub open spec fn step_bind<P, S>(
    protocol: ProtocolView<P>,
    channel: ChannelView,
    prepared_statement_name: Seq<char>,
    portal_name: Seq<char>,
    params: Seq<P>,
    result_transfer_formats: Seq<TransferFormat>,
) -> Outcome<P, S> {
    if !protocol.prepared_statements.contains_key(prepared_statement_name) {
        unchanged(
            protocol,
            channel,
            Err(ErrorView::MissingPreparedStatement(prepared_statement_name)),
        )
    } else {
        let statement = protocol.prepared_statements[prepared_statement_name];
        let n = statement.row_schema.len();
        match resolved_formats(result_transfer_formats, n) {
            None => unchanged(
                protocol,
                channel,
                Err(ErrorView::IncorrectFormatCount(n as usize)),
            ),
            Some(formats) => Outcome {
                protocol: ProtocolView {
                    portals: protocol.portals.insert(
                        portal_name,
                        PortalView {
                            prepared_statement_id: statement.prepared_statement_id,
                            prepared_statement_name,
                            params,
                            result_transfer_formats: formats,
                        },
                    ),
                    ..protocol
                },
                channel,
                result: Ok(ResponseView::Message(BackendMessageView::BindComplete)),
            },
        }
    }
}

/// A close request. Closing what does not exist is no error. Closing a
/// prepared statement lets go of it on the engine first; its portals stay.
pub open spec fn step_close<P, S>(
    protocol: ProtocolView<P>,
    channel: ChannelView,
    name: StatementNameView,
    answers: EngineAnswers<S>,
) -> Outcome<P, S> {
    let done = Ok(ResponseView::Message(BackendMessageView::CloseComplete));
    match name {
        StatementNameView::Portal(name) => Outcome {
            protocol: ProtocolView { portals: protocol.portals.remove(name), ..protocol },
            channel,
            result: done,
        },
        StatementNameView::PreparedStatement(name) => {
            if protocol.prepared_statements.contains_key(name) {
                let statement_id = protocol.prepared_statements[name].prepared_statement_id;
                let asked = protocol.with_call(EngineCall::Close { statement_id });
                match answers.close {
                    Err(e) => unchanged(asked, channel, Err(e)),
                    Ok(_) => Outcome {
                        protocol: ProtocolView {
                            prepared_statements: protocol.prepared_statements.remove(name),
                            ..asked
                        },
                        channel: channel.without_statement_param_types(name),
                        result: done,
                    },
                }
            } else {
                unchanged(protocol, channel, done)
            }
        },
    }
}

/// The session after columns were described: it keeps what was learnt from the
/// catalog, and its log holds the catalog query if the engine was asked.
pub open spec fn after_describing<P>(protocol: ProtocolView<P>, described: Described)
    -> ProtocolView<P> {
    protocol.with_extended_types(described.cache).with_engine_log(
        log_after_asking(protocol.engine_log, described.asked),
    )
}

/// The response that describes a portal: the descriptions of its result
/// columns.
pub open spec fn portal_description<S>(fields: Seq<FieldDescriptionView>) -> ResponseView<S> {
    ResponseView::Message(BackendMessageView::RowDescription { field_descriptions: fields })
}

/// The response that describes a prepared statement: the types of its
/// parameters, then the descriptions of its result columns.
pub open spec fn statement_description<S>(
    types: Seq<Type>,
    fields: Seq<FieldDescriptionView>,
) -> ResponseView<S> {
    ResponseView::Messages(
        seq![
            BackendMessageView::ParameterDescription { parameter_data_types: types },
            BackendMessageView::RowDescription { field_descriptions: fields },
        ],
    )
}

/// A describe request.
pub open spec fn step_describe<P, S>(
    protocol: ProtocolView<P>,
    channel: ChannelView,
    name: StatementNameView,
    answers: EngineAnswers<S>,
) -> Outcome<P, S> {
    match name {
        StatementNameView::Portal(name) => {
            if !protocol.portals.contains_key(name) {
                unchanged(protocol, channel, Err(ErrorView::MissingPortal(name)))
            } else {
                let portal = protocol.portals[name];
                if !protocol.prepared_statements.contains_key(portal.prepared_statement_name) {
                    unchanged(
                        protocol,
                        channel,
                        Err(ErrorView::InternalError("missing prepared statement"@)),
                    )
                } else {
                    let statement = protocol.prepared_statements[portal.prepared_statement_name];
                    let described = describe(
                        statement.row_schema,
                        Some(portal.result_transfer_formats),
                        protocol.extended_types,
                        answers.catalog,
                    );
                    Outcome {
                        protocol: after_describing(protocol, described),
                        channel,
                        result: match described.fields {
                            Err(e) => Err(e),
                            Ok(fields) => Ok(portal_description(fields)),
                        },
                    }
                }
            }
        },
        StatementNameView::PreparedStatement(name) => {
            if !protocol.prepared_statements.contains_key(name) {
                unchanged(protocol, channel, Err(ErrorView::MissingPreparedStatement(name)))
            } else {
                let statement = protocol.prepared_statements[name];
                let described = describe(
                    statement.row_schema,
                    None,
                    protocol.extended_types,
                    answers.catalog,
                );
                Outcome {
                    protocol: after_describing(protocol, described),
                    channel,
                    result: match described.fields {
                        Err(e) => Err(e),
                        Ok(fields) => Ok(statement_description(statement.param_schema, fields)),
                    },
                }
            }
        },
    }
}

/// What the execution of a portal answers, given the engine's result and the
/// portal's formats; `None` where the result is none that an execution may
/// give.
pub open spec fn execute_response<S>(
    response: QueryResponseView<S>,
    formats: Seq<TransferFormat>,
) -> Option<ResponseView<S>> {
    match response {
        QueryResponseView::Select { schema, resultset } => Some(
            ResponseView::Select {
                header: None,
                resultset,
                result_transfer_formats: Some(formats),
                trailer: None,
            },
        ),
        QueryResponseView::SimpleQuery(_) => None,
        _ => Some(
            ResponseView::Message(
                BackendMessageView::CommandComplete { tag: command_tag(response).unwrap() },
            ),
        ),
    }
}

/// An execute request. The session is `Extended` while the portal runs, and
/// `Ready` again once there is a response; where there is none, it stays
/// `Extended`.
pub open spec fn step_execute<P, S>(
    protocol: ProtocolView<P>,
    channel: ChannelView,
    portal_name: Seq<char>,
    answers: EngineAnswers<S>,
) -> Outcome<P, S> {
    let extended = protocol.with_state(StateView::Extended);
    if !protocol.portals.contains_key(portal_name) {
        unchanged(extended, channel, Err(ErrorView::MissingPreparedStatement(portal_name)))
    } else {
        let portal = protocol.portals[portal_name];
        let asked = extended.with_call(
            EngineCall::Execute {
                statement_id: portal.prepared_statement_id,
                params: portal.params,
            },
        );
        match answers.execute {
            Err(e) => unchanged(asked, channel, Err(e)),
            Ok(response) => match execute_response(response, portal.result_transfer_formats) {
                None => unchanged(
                    asked,
                    channel,
                    Err(ErrorView::InternalError("Received SimpleQuery response for Execute"@)),
                ),
                Some(response) => Outcome {
                    protocol: asked.with_state(StateView::Ready),
                    channel,
                    result: Ok(response),
                },
            },
        }
    }
}

/// What follows once the engine has answered a query: the session and the
/// result. Rows are framed by the description of their columns, as text
/// throughout, and the message that the session is idle; a result handed
/// through is folded into messages; a command result is reported by its tag,
/// followed by the message that the session is idle. Describing the columns
/// may ask the engine for its catalog, to which it answers `catalog`.
pub open spec fn query_outcome<P, S>(
    protocol: ProtocolView<P>,
    response: QueryResponseView<S>,
    catalog: Result<QueryResponseView<S>, ErrorView>,
) -> (ProtocolView<P>, Result<ResponseView<S>, ErrorView>) {
    match response {
        QueryResponseView::Select { schema, resultset } => {
            let described = describe(schema, None, protocol.extended_types, catalog);
            (
                after_describing(protocol, described),
                match described.fields {
                    Err(e) => Err(e),
                    Ok(field_descriptions) => Ok(
                        ResponseView::Select {
                            header: Some(BackendMessageView::RowDescription { field_descriptions }),
                            resultset,
                            result_transfer_formats: None,
                            trailer: Some(BackendMessageView::ready_for_query_idle()),
                        },
                    ),
                },
            )
        },
        QueryResponseView::SimpleQuery(events) => (
            protocol,
            match simple_query_messages(events) {
                Ok(messages) => Ok(ResponseView::Messages(messages)),
                Err(e) => Err(e),
            },
        ),
        _ => (
            protocol,
            Ok(
                ResponseView::Messages(
                    seq![
                        BackendMessageView::CommandComplete { tag: command_tag(response).unwrap() },
                        BackendMessageView::ready_for_query_idle(),
                    ],
                ),
            ),
        ),
    }
}

/// A query request.
pub open spec fn step_query<P, S>(
    protocol: ProtocolView<P>,
    channel: ChannelView,
    query: Seq<char>,
    answers: EngineAnswers<S>,
) -> Outcome<P, S> {
    let asked = protocol.with_call(EngineCall::Query { query });
    match answers.query {
        Err(e) => unchanged(asked, channel, Err(e)),
        Ok(response) => {
            let outcome = query_outcome(asked, response, answers.catalog);
            Outcome { protocol: outcome.0, channel, result: outcome.1 }
        },
    }
}

/// A parse request: the engine prepares the statement, which is then kept
/// under `prepared_statement_name`, replacing any statement of that name.
pub open spec fn step_parse<P, S>(
    protocol: ProtocolView<P>,
    channel: ChannelView,
    prepared_statement_name: Seq<char>,
    query: Seq<char>,
    answers: EngineAnswers<S>,
) -> Outcome<P, S> {
    let asked = protocol.with_call(EngineCall::Prepare { query });
    match answers.prepare {
        Err(e) => unchanged(asked, channel, Err(e)),
        Ok(prepared) => Outcome {
            protocol: ProtocolView {
                prepared_statements: protocol.prepared_statements.insert(
                    prepared_statement_name,
                    StatementView {
                        prepared_statement_id: prepared.prepared_statement_id,
                        param_schema: prepared.param_schema,
                        row_schema: prepared.row_schema,
                    },
                ),
                ..asked
            },
            channel: channel.with_statement_param_types(
                prepared_statement_name,
                prepared.param_schema,
            ),
            result: Ok(ResponseView::Message(BackendMessageView::ParseComplete)),
        },
    }
}

/// A request in one of the states `Ready`, `Extended` and `Error`.
pub open spec fn step_regular<P, S>(
    protocol: ProtocolView<P>,
    channel: ChannelView,
    message: FrontendMessageView<P>,
    answers: EngineAnswers<S>,
) -> Outcome<P, S> {
    match message {
        FrontendMessageView::Bind {
            prepared_statement_name,
            portal_name,
            params,
            result_transfer_formats,
        } => step_bind(
            protocol,
            channel,
            prepared_statement_name,
            portal_name,
            params,
            result_transfer_formats,
        ),
        FrontendMessageView::Close { name } => step_close(protocol, channel, name, answers),
        FrontendMessageView::Describe { name } => step_describe(protocol, channel, name, answers),
        FrontendMessageView::Execute { portal_name, limit } => step_execute(
            protocol,
            channel,
            portal_name,
            answers,
        ),
        FrontendMessageView::Query { query } => step_query(protocol, channel, query, answers),
        FrontendMessageView::Parse {
            prepared_statement_name,
            query,
            parameter_data_types,
        } => step_parse(protocol, channel, prepared_statement_name, query, answers),
        FrontendMessageView::Sync => Outcome {
            protocol: protocol.with_state(StateView::Ready),
            channel,
            result: Ok(ResponseView::Message(BackendMessageView::ready_for_query_idle())),
        },
        FrontendMessageView::Flush => unchanged(protocol, channel, Ok(ResponseView::Empty)),
        FrontendMessageView::Terminate => unchanged(protocol, channel, Ok(ResponseView::Empty)),
        _ => unsupported_message(protocol, channel, message),
    }
}

/// What handling `message` leads to, from the state of the session and of
/// the framing before it and from what the engine answers.
pub open spec fn step<P, S>(
    protocol: ProtocolView<P>,
    channel: ChannelView,
    message: FrontendMessageView<P>,
    answers: EngineAnswers<S>,
) -> Outcome<P, S> {
    match protocol.state {
        StateView::StartingUp => step_starting_up(protocol, channel, message, answers),
        StateView::Authenticating { user } => step_authenticating(
            protocol,
            channel,
            user,
            message,
            answers,
        ),
        _ => step_regular(protocol, channel, message, answers),
    }
}

/// What reporting an error to the frontend leads to: the session and the
/// response. A failure during start-up or while a portal runs leaves the
/// session in the state `Error`, and the error message is all that is sent;
/// in any other state the session stays as it is and is declared idle.
pub open spec fn step_error<P, S>(protocol: ProtocolView<P>, error: ErrorView) -> (
    ProtocolView<P>,
    ResponseView<S>,
) {
    match protocol.state {
        StateView::StartingUp | StateView::Extended => (
            protocol.with_state(StateView::Error),
            ResponseView::Message(error.response()),
        ),
        _ => (
            protocol,
            ResponseView::Messages(
                seq![error.response(), BackendMessageView::ready_for_query_idle()],
            ),
        ),
    }
}

} // verus!
