//! The session of one connection: its state, its prepared statements and
//! portals, and what it does with each request.

use vstd::prelude::*;
use vstd::hash_map::StringHashMap;
use std::collections::HashMap;
use std::sync::Arc;
use crate::backend::{
    columns_view, init_view, prepare_view, query_view, unit_view, Backend, Column,
    CredentialsNeeded, PrepareResponse, QueryResponse, QueryResponseView,
};
use crate::channel::{Channel, ChannelView};
use crate::describe::describe_columns;
use crate::engine::Recorded;
use crate::error::{make_error_response, Error, ErrorView};
use crate::message::{
    fields_view, option_string_view, BackendMessage, BackendMessageView, FieldDescription,
    FrontendMessage, FrontendMessageView, StatementName, TransferFormat,
};
use crate::model;
use crate::model::{
    EngineAnswers, EngineCall, Outcome, PortalView, ProtocolView, StateView, StatementView,
};
use crate::passthrough::{command_tag, simple_query_messages};
use crate::pgtype::Type;
use crate::response::{result_view, MessageList, Response, ResponseView};

verus! {

broadcast use vstd::std_specs::hash::group_hash_axioms;

/// Where a session stands in the flow of requests and responses.
///
/// A session moves from `StartingUp` to `Ready`, by way of `Authenticating`
/// where the engine wants a password; from `Ready` to `Extended` while a
/// portal runs and back; from `StartingUp` or `Extended` to `Error` when a
/// failure is reported to the frontend; and from there to `Ready` when the
/// frontend synchronizes.
#[derive(Debug, Clone, PartialEq, Eq)]
pub enum State {
    /// No start-up request has been accepted yet.
    StartingUp,
    /// The engine wants a password for the given user.
    Authenticating { user: String },
    /// The session is idle.
    Ready,
    /// A portal is running.
    Extended,
    /// A failure was reported; the frontend has not synchronized since.
    Error,
}

impl View for State {
    type V = StateView;

    open spec fn view(&self) -> StateView {
        match *self {
            State::StartingUp => StateView::StartingUp,
            State::Authenticating { user } => StateView::Authenticating { user: user@ },
            State::Ready => StateView::Ready,
            State::Extended => StateView::Extended,
            State::Error => StateView::Error,
        }
    }
}

/// What a session keeps of a prepared statement: the engine's handle for it
/// and the schemas of its parameters and of its result.
#[derive(Debug, PartialEq)]
pub struct PreparedStatementData {
    pub prepared_statement_id: u32,
    pub param_schema: Vec<Type>,
    pub row_schema: Vec<Column>,
}

impl View for PreparedStatementData {
    type V = StatementView;

    open spec fn view(&self) -> StatementView {
        StatementView {
            prepared_statement_id: self.prepared_statement_id,
            param_schema: self.param_schema@,
            row_schema: columns_view(self.row_schema@),
        }
    }
}

/// What a session keeps of a portal: the statement it was bound from, the
/// parameter values, and the format of every result column. The formats are
/// shared with the responses that carry them.
#[derive(Debug, PartialEq)]
pub struct PortalData<P> {
    pub prepared_statement_id: u32,
    pub prepared_statement_name: String,
    pub params: Vec<P>,
    pub result_transfer_formats: Arc<Vec<TransferFormat>>,
}

impl<P> View for PortalData<P> {
    type V = PortalView<P>;

    open spec fn view(&self) -> PortalView<P> {
        PortalView {
            prepared_statement_id: self.prepared_statement_id,
            prepared_statement_name: self.prepared_statement_name@,
            params: self.params@,
            result_transfer_formats: self.result_transfer_formats@,
        }
    }
}

/// The backend side of one connection. `P` is the type of a bound parameter
/// value.
#[verifier::reject_recursive_types(P)]
pub struct Protocol<P> {
    /// Where the session stands.
    pub state: State,
    /// The prepared statements of the session, by name.
    pub prepared_statements: StringHashMap<PreparedStatementData>,
    /// The portals of the session, by name.
    pub portals: StringHashMap<PortalData<P>>,
    /// The sizes of the types that are not built in, by type identifier, as
    /// learnt from the engine's catalog; empty until the first such type is
    /// met.
    pub extended_types: HashMap<u32, i16>,
    /// The calls that the session has made on the engine, oldest first, as
    /// recorded by the [`Recorded`] through which it reaches the engine. It
    /// is the session's own account: each entry was written by the method of
    /// [`Recorded`] that made the call, and nothing else vouches for it.
    pub engine_log: Ghost<Seq<EngineCall<P>>>,
}

impl<P> View for Protocol<P> {
    type V = ProtocolView<P>;

    open spec fn view(&self) -> ProtocolView<P> {
        ProtocolView {
            state: self.state@,
            prepared_statements: self.prepared_statements@.map_values(
                |d: PreparedStatementData| d@,
            ),
            portals: self.portals@.map_values(|p: PortalData<P>| p@),
            extended_types: self.extended_types@,
            engine_log: self.engine_log@,
        }
    }
}

/// `n` times the format `format`.
pub fn repeat_format(format: TransferFormat, n: usize) -> (formats: Vec<TransferFormat>)
    ensures
        formats@ == model::repeated_format(format, n as nat),
{
    let mut formats: Vec<TransferFormat> = Vec::new();
    let mut i: usize = 0;
    while i < n
        invariant
            i <= n,
            formats@ == model::repeated_format(format, i as nat),
        decreases n - i,
    {
        formats.push(format);
        assert(formats@ =~= model::repeated_format(format, (i + 1) as nat));
        i = i + 1;
    }
    formats
}

pub open spec fn option_vec_view(formats: Option<Vec<TransferFormat>>) -> Option<
    Seq<TransferFormat>,
> {
    match formats {
        Some(f) => Some(f@),
        None => None,
    }
}

/// The format of each of `n` result columns, from the formats that a bind
/// request names; `None` where their number fits no rule.
pub fn resolve_formats(given: Vec<TransferFormat>, n: usize) -> (formats: Option<
    Vec<TransferFormat>,
>)
    ensures
        option_vec_view(formats) == model::resolved_formats(given@, n as nat),
{
    if given.len() == 0 {
        Some(repeat_format(TransferFormat::Text, n))
    } else if given.len() == 1 {
        Some(repeat_format(given[0], n))
    } else if given.len() == n {
        Some(given)
    } else {
        None
    }
}

/// The messages that tell a client it is let in.
pub fn ready_sequence(version: String) -> (list: MessageList)
    ensures
        list@ == model::ready_sequence(version@),
{
    let mut messages: Vec<BackendMessage> = Vec::with_capacity(7);
    messages.push(BackendMessage::AuthenticationOk);
    messages.push(BackendMessage::parameter_status("client_encoding", "UTF8".to_owned()));
    messages.push(BackendMessage::parameter_status("DateStyle", "ISO".to_owned()));
    messages.push(BackendMessage::parameter_status("TimeZone", "UTC".to_owned()));
    messages.push(BackendMessage::parameter_status("standard_conforming_strings", "on".to_owned()));
    messages.push(BackendMessage::parameter_status("server_version", version));
    messages.push(BackendMessage::ready_for_query_idle());
    let list = MessageList::from_vec(messages);
    assert(list@ =~= model::ready_sequence(version@));
    list
}

impl<P> Protocol<P> {
    /// The session of a fresh connection.
    pub fn new() -> (protocol: Protocol<P>)
        ensures
            protocol@ == ProtocolView::<P>::initial(),
    {
        let protocol = Protocol {
            state: State::StartingUp,
            prepared_statements: StringHashMap::new(),
            portals: StringHashMap::new(),
            extended_types: HashMap::new(),
            engine_log: Ghost(Seq::empty()),
        };
        assert(protocol@.prepared_statements =~= Map::empty());
        assert(protocol@.portals =~= Map::empty());
        protocol
    }

    /// Lets the client in: the session is `Ready` and answers with the ready
    /// sequence.
    pub fn let_in<S>(&mut self, version: String) -> (response: Response<S>)
        ensures
            final(self)@ == old(self)@.with_state(StateView::Ready),
            response@ == ResponseView::<S>::Messages(model::ready_sequence(version@)),
    {
        self.state = State::Ready;
        Response::Messages(ready_sequence(version))
    }

    /// Asks the client for its password in clear text: the session is
    /// `Authenticating` for the user that the client named, and start-up is
    /// over for the framing. A client that named no user is refused, and
    /// nothing changes.
    pub fn ask_for_password<S>(&mut self, user: Option<String>, channel: &mut Channel) -> (result:
        Result<Response<S>, Error>)
        ensures
            match user {
                Some(user) => {
                    &&& final(self)@ == old(self)@.with_state(
                        StateView::Authenticating { user: user@ },
                    )
                    &&& final(channel)@ == old(channel)@.with_start_up_complete()
                    &&& result_view(result) == Ok::<ResponseView<S>, ErrorView>(
                        ResponseView::Messages(
                            seq![BackendMessageView::AuthenticationCleartextPassword],
                        ),
                    )
                },
                None => {
                    &&& final(self)@ == old(self)@
                    &&& final(channel)@ == old(channel)@
                    &&& result_view(result) == Err::<ResponseView<S>, ErrorView>(
                        ErrorView::AuthenticationFailure(Seq::empty()),
                    )
                },
            },
    {
        match user {
            None => Err(Error::AuthenticationFailure(String::new())),
            Some(user) => {
                self.state = State::Authenticating { user };
                channel.set_start_up_complete();
                let mut messages: Vec<BackendMessage> = Vec::with_capacity(1);
                messages.push(BackendMessage::AuthenticationCleartextPassword);
                let list = MessageList::from_vec(messages);
                assert(list@ =~= seq![BackendMessageView::AuthenticationCleartextPassword]);
                Ok(Response::Messages(list))
            },
        }
    }

    /// Handles a bind request: makes the portal `portal_name` of the
    /// statement `prepared_statement_name`, with the given parameter values
    /// and the result formats that the given ones stand for. A portal of that
    /// name is replaced. Fails, and makes no portal, where there is no such
    /// statement or the number of formats fits no rule.
    pub fn bind<S>(
        &mut self,
        prepared_statement_name: String,
        portal_name: String,
        params: Vec<P>,
        result_transfer_formats: Vec<TransferFormat>,
    ) -> (result: Result<Response<S>, Error>)
        ensures
            forall|channel: ChannelView| #[trigger]
                model::step_bind::<P, S>(
                    old(self)@,
                    channel,
                    prepared_statement_name@,
                    portal_name@,
                    params@,
                    result_transfer_formats@,
                ) == (Outcome { protocol: final(self)@, channel, result: result_view(result) }),
    {
        let (prepared_statement_id, n_cols) = match self.prepared_statements.get(
            prepared_statement_name.as_str(),
        ) {
            None => {
                return Err(Error::MissingPreparedStatement(prepared_statement_name));
            },
            Some(statement) => (statement.prepared_statement_id, statement.row_schema.len()),
        };
        let formats = match resolve_formats(result_transfer_formats, n_cols) {
            None => {
                return Err(Error::IncorrectFormatCount(n_cols));
            },
            Some(formats) => formats,
        };
        let portal = PortalData {
            prepared_statement_id,
            prepared_statement_name,
            params,
            result_transfer_formats: Arc::new(formats),
        };
        let ghost portal_view = portal@;
        self.portals.insert(portal_name, portal);
        assert(self@.portals =~= old(self)@.portals.insert(portal_name@, portal_view));
        Ok(Response::Message(BackendMessage::BindComplete))
    }

    /// Handles the request to close a portal: the portal is gone, whether or
    /// not there was one.
    pub fn close_portal<S>(&mut self, name: &str) -> (response: Response<S>)
        ensures
            final(self)@ == (ProtocolView {
                portals: old(self)@.portals.remove(name@),
                ..old(self)@
            }),
            response@ == ResponseView::<S>::Message(BackendMessageView::CloseComplete),
    {
        self.portals.remove(name);
        assert(self@.portals =~= old(self)@.portals.remove(name@));
        Response::Message(BackendMessage::CloseComplete)
    }

    /// The engine's handle for the prepared statement `name`, if there is
    /// such a statement.
    pub fn statement_id(&self, name: &str) -> (id: Option<u32>)
        ensures
            id == (if self@.prepared_statements.contains_key(name@) {
                Some(self@.prepared_statements[name@].prepared_statement_id)
            } else {
                None
            }),
    {
        match self.prepared_statements.get(name) {
            Some(statement) => Some(statement.prepared_statement_id),
            None => None,
        }
    }

    /// Forgets the prepared statement `name`, here and in the framing. Its
    /// portals stay.
    pub fn forget_statement<S>(&mut self, name: &str, channel: &mut Channel) -> (response:
        Response<S>)
        ensures
            final(self)@ == (ProtocolView {
                prepared_statements: old(self)@.prepared_statements.remove(name@),
                ..old(self)@
            }),
            final(channel)@ == old(channel)@.without_statement_param_types(name@),
            response@ == ResponseView::<S>::Message(BackendMessageView::CloseComplete),
    {
        channel.clear_statement_param_types(name);
        self.prepared_statements.remove(name);
        assert(self@.prepared_statements =~= old(self)@.prepared_statements.remove(name@));
        Response::Message(BackendMessage::CloseComplete)
    }

    /// Keeps the statement that the engine has prepared under `name`,
    /// replacing any statement of that name, and tells the framing its
    /// parameter types.
    pub fn register_statement<S>(
        &mut self,
        name: String,
        prepared: PrepareResponse,
        channel: &mut Channel,
    ) -> (response: Response<S>)
        ensures
            final(self)@ == (ProtocolView {
                prepared_statements: old(self)@.prepared_statements.insert(
                    name@,
                    StatementView {
                        prepared_statement_id: prepared@.prepared_statement_id,
                        param_schema: prepared@.param_schema,
                        row_schema: prepared@.row_schema,
                    },
                ),
                ..old(self)@
            }),
            final(channel)@ == old(channel)@.with_statement_param_types(
                name@,
                prepared@.param_schema,
            ),
            response@ == ResponseView::<S>::Message(BackendMessageView::ParseComplete),
    {
        let PrepareResponse { prepared_statement_id, param_schema, row_schema } = prepared;
        let types = copy_types(&param_schema);
        channel.set_statement_param_types(name.as_str(), types);
        let statement = PreparedStatementData { prepared_statement_id, param_schema, row_schema };
        let ghost statement_view = statement@;
        self.prepared_statements.insert(name, statement);
        assert(self@.prepared_statements =~= old(self)@.prepared_statements.insert(
            name@,
            statement_view,
        ));
        Response::Message(BackendMessage::ParseComplete)
    }

    /// Handles the request to synchronize: the session is `Ready` and says
    /// so.
    pub fn sync<S>(&mut self) -> (response: Response<S>)
        ensures
            final(self)@ == old(self)@.with_state(StateView::Ready),
            response@ == ResponseView::<S>::Message(BackendMessageView::ready_for_query_idle()),
    {
        self.state = State::Ready;
        Response::Message(BackendMessage::ready_for_query_idle())
    }

    /// Reports a failure to the frontend. During start-up and while a portal
    /// runs, the session goes to the state `Error` and answers with the error
    /// message alone; the frontend is then expected to synchronize. In any
    /// other state the session stays as it is and answers with the error
    /// message and the message that it is idle.
    pub fn on_error<B: Backend>(&mut self, error: Error) -> (result: Result<
        Response<B::Resultset>,
        Error,
    >)
        ensures
            result is Ok,
            (final(self)@, result->Ok_0@) == model::step_error::<P, B::Resultset>(
                old(self)@,
                error@,
            ),
    {
        match self.state {
            State::StartingUp | State::Extended => {
                self.state = State::Error;
                Ok(Response::Message(make_error_response(error)))
            },
            _ => {
                let mut messages: Vec<BackendMessage> = Vec::with_capacity(2);
                messages.push(make_error_response(error));
                messages.push(BackendMessage::ready_for_query_idle());
                let list = MessageList::from_vec(messages);
                assert(list@ =~= seq![
                    error@.response(),
                    BackendMessageView::ready_for_query_idle(),
                ]);
                Ok(Response::Messages(list))
            },
        }
    }
}

/// The response that describes a portal: the descriptions of its result
/// columns.
pub fn portal_description<S>(fields: Vec<FieldDescription>) -> (response: Response<S>)
    ensures
        response@ == model::portal_description::<S>(fields_view(fields@)),
{
    Response::Message(BackendMessage::RowDescription { field_descriptions: fields })
}

/// The response that describes a prepared statement: the types of its
/// parameters, then the descriptions of its result columns.
pub fn statement_description<S>(types: Vec<Type>, fields: Vec<FieldDescription>) -> (response:
    Response<S>)
    ensures
        response@ == model::statement_description::<S>(types@, fields_view(fields@)),
{
    let ghost expected = model::statement_description::<S>(types@, fields_view(fields@));
    let mut messages: Vec<BackendMessage> = Vec::with_capacity(2);
    messages.push(BackendMessage::ParameterDescription { parameter_data_types: types });
    messages.push(BackendMessage::RowDescription { field_descriptions: fields });
    let list = MessageList::from_vec(messages);
    assert(list@ =~= expected->Messages_0);
    Response::Messages(list)
}

impl<P> Protocol<P> {
    /// The session as it stands, with `log` for the calls made on the engine.
    /// While a request is handled, the calls are recorded with the engine;
    /// this is the session with that record.
    pub open spec fn logged(&self, log: Seq<EngineCall<P>>) -> ProtocolView<P> {
        self@.with_engine_log(log)
    }

    /// Turns the engine's answer to the execution of a portal into the
    /// response. Rows are handed on with the portal's formats, without a
    /// leading or a trailing message; a command result is reported by its tag.
    /// Either way the session is `Ready` again. A result handed through as
    /// text is none that an execution may give: it is an error, and the
    /// session stays as it is.
    pub fn finish_execute<S>(
        &mut self,
        formats: Arc<Vec<TransferFormat>>,
        response: QueryResponse<S>,
    ) -> (result: Result<Response<S>, Error>)
        ensures
            match model::execute_response(response@, formats@) {
                Some(expected) => {
                    &&& final(self)@ == old(self)@.with_state(StateView::Ready)
                    &&& result_view(result) == Ok::<ResponseView<S>, ErrorView>(expected)
                },
                None => {
                    &&& final(self)@ == old(self)@
                    &&& result_view(result) == Err::<ResponseView<S>, ErrorView>(
                        ErrorView::InternalError("Received SimpleQuery response for Execute"@),
                    )
                },
            },
    {
        let tag = command_tag(&response);
        match response {
            QueryResponse::Select { schema, resultset } => {
                self.state = State::Ready;
                Ok(
                    Response::Select {
                        header: None,
                        resultset,
                        result_transfer_formats: Some(formats),
                        trailer: None,
                    },
                )
            },
            QueryResponse::SimpleQuery(_) => Err(
                Error::internal("Received SimpleQuery response for Execute"),
            ),
            _ => {
                self.state = State::Ready;
                Ok(Response::Message(BackendMessage::CommandComplete { tag: tag.unwrap() }))
            },
        }
    }

    /// Acts on what the engine said of the credentials it wants. A client
    /// that needs none is let in, with the version that the engine announces
    /// as the last of the session parameters; one that needs a password is
    /// asked for it if it named a user, and refused if it did not. No call
    /// is made on the engine but for its version.
    pub fn after_init<B: Backend<Value = P>>(
        &mut self,
        needed: CredentialsNeeded,
        user: Option<String>,
        backend: &Recorded<B>,
        channel: &mut Channel,
    ) -> (result: Result<Response<B::Resultset>, Error>)
        ensures
            exists|version: Seq<char>| #[trigger]
                model::init_outcome::<P, B::Resultset>(
                    old(self)@,
                    old(channel)@,
                    option_string_view(user),
                    needed,
                    version,
                ) == (Outcome {
                    protocol: final(self)@,
                    channel: final(channel)@,
                    result: result_view(result),
                }),
            needed == CredentialsNeeded::Cleartext ==> model::init_outcome::<P, B::Resultset>(
                old(self)@,
                old(channel)@,
                option_string_view(user),
                needed,
                Seq::empty(),
            ) == (Outcome {
                protocol: final(self)@,
                channel: final(channel)@,
                result: result_view(result),
            }),
    {
        match needed {
            CredentialsNeeded::Nothing => {
                let version = backend.version();
                let ghost announced = version@;
                channel.set_start_up_complete();
                let response = self.let_in(version);
                assert(model::init_outcome::<P, B::Resultset>(
                    old(self)@,
                    old(channel)@,
                    option_string_view(user),
                    needed,
                    announced,
                ) == (Outcome {
                    protocol: self@,
                    channel: channel@,
                    result: Ok(response@),
                }));
                Ok(response)
            },
            CredentialsNeeded::Cleartext => {
                let result = self.ask_for_password(user, channel);
                assert(model::init_outcome::<P, B::Resultset>(
                    old(self)@,
                    old(channel)@,
                    option_string_view(user),
                    needed,
                    Seq::empty(),
                ) == (Outcome {
                    protocol: self@,
                    channel: channel@,
                    result: result_view(result),
                }));
                result
            },
        }
    }

    /// Turns the engine's answer to a query into the response. Rows are
    /// framed by the description of their columns, as text throughout, and
    /// the message that the session is idle; a result handed through is
    /// folded into messages; a command result is reported by its tag,
    /// followed by the message that the session is idle. The one call that
    /// may be made on the engine is the catalog query, where a column has a
    /// type of which no size is known yet.
    pub fn finish_query<B: Backend<Value = P>>(
        &mut self,
        response: QueryResponse<B::Resultset>,
        backend: &mut Recorded<B>,
    ) -> (result: Result<Response<B::Resultset>, Error>)
        ensures
            exists|catalog: Result<QueryResponseView<B::Resultset>, ErrorView>| #[trigger]
                model::query_outcome(
                    old(self).logged(old(backend).log()),
                    response@,
                    catalog,
                ) == (final(self).logged(final(backend).log()), result_view(result)),
            !(response is Select) ==> {
                &&& final(self)@ == old(self)@
                &&& final(backend).log() == old(backend).log()
            },
    {
        let ghost before = self.logged(backend.log());
        let ghost answered = response@;
        match response {
            QueryResponse::Select { schema, resultset } => {
                let (fields, asked, catalog) = describe_columns(
                    &schema,
                    None,
                    backend,
                    &mut self.extended_types,
                );
                let result = match fields {
                    Err(e) => Err(e),
                    Ok(field_descriptions) => Ok(
                        Response::Select {
                            header: Some(BackendMessage::RowDescription { field_descriptions }),
                            resultset,
                            result_transfer_formats: None,
                            trailer: Some(BackendMessage::ready_for_query_idle()),
                        },
                    ),
                };
                assert(model::query_outcome(before, answered, catalog@) == (
                    self.logged(backend.log()),
                    result_view(result),
                ));
                result
            },
            QueryResponse::SimpleQuery(events) => {
                let result = match simple_query_messages(events) {
                    Ok(list) => Ok(Response::Messages(list)),
                    Err(e) => Err(e),
                };
                assert(model::query_outcome(before, answered, arbitrary()) == (
                    self.logged(backend.log()),
                    result_view(result),
                ));
                result
            },
            other => {
                let tag = command_tag(&other).unwrap();
                let mut messages: Vec<BackendMessage> = Vec::with_capacity(2);
                messages.push(BackendMessage::CommandComplete { tag });
                messages.push(BackendMessage::ready_for_query_idle());
                let list = MessageList::from_vec(messages);
                assert(list@ =~= seq![
                    BackendMessageView::CommandComplete { tag },
                    BackendMessageView::ready_for_query_idle(),
                ]);
                let result = Ok(Response::Messages(list));
                assert(model::query_outcome(before, answered, arbitrary()) == (
                    self.logged(backend.log()),
                    result_view(result),
                ));
                result
            },
        }
    }

    fn handle_startup<B: Backend<Value = P>>(
        &mut self,
        database: Option<String>,
        user: Option<String>,
        backend: &mut Recorded<B>,
        channel: &mut Channel,
    ) -> (r: (Result<Response<B::Resultset>, Error>, Ghost<EngineAnswers<B::Resultset>>))
        ensures
            model::step_startup(
                old(self).logged(old(backend).log()),
                old(channel)@,
                option_string_view(database),
                option_string_view(user),
                r.1@,
            ) == (Outcome {
                protocol: final(self).logged(final(backend).log()),
                channel: final(channel)@,
                result: result_view(r.0),
            }),
    {
        let database = match database {
            None => {
                return (
                    Err(Error::Unsupported("database is required".to_owned())),
                    Ghost(arbitrary()),
                );
            },
            Some(database) => database,
        };
        let init = backend.on_init(database.as_str());
        let ghost answered = init_view(init);
        match init {
            Err(e) => (Err(e), Ghost(EngineAnswers { init: answered, ..arbitrary() })),
            Ok(needed) => {
                let ghost named = option_string_view(user);
                let result = self.after_init(needed, user, backend, channel);
                let ghost version = choose|version: Seq<char>| #[trigger]
                    model::init_outcome::<P, B::Resultset>(
                        old(self)@,
                        old(channel)@,
                        named,
                        needed,
                        version,
                    ) == (Outcome {
                        protocol: self@,
                        channel: channel@,
                        result: result_view(result),
                    });
                (result, Ghost(EngineAnswers { init: answered, version, ..arbitrary() }))
            },
        }
    }

    fn handle_password<B: Backend<Value = P>>(
        &mut self,
        user: String,
        password: String,
        backend: &mut Recorded<B>,
    ) -> (r: (Result<Response<B::Resultset>, Error>, Ghost<EngineAnswers<B::Resultset>>))
        ensures
            forall|channel: ChannelView, message: FrontendMessageView<P>|
                message == (FrontendMessageView::<P>::PasswordMessage { password: password@ })
                    ==> #[trigger] model::step_authenticating(
                    old(self).logged(old(backend).log()),
                    channel,
                    user@,
                    message,
                    r.1@,
                ) == (Outcome {
                    protocol: final(self).logged(final(backend).log()),
                    channel,
                    result: result_view(r.0),
                }),
    {
        let auth = backend.on_auth(user, password);
        let ghost mut answers = EngineAnswers { auth: unit_view(auth), ..arbitrary() };
        match auth {
            Err(e) => (Err(e), Ghost(answers)),
            Ok(_) => {
                let version = backend.version();
                proof {
                    answers = EngineAnswers { version: version@, ..answers };
                }
                (Ok(self.let_in(version)), Ghost(answers))
            },
        }
    }

    fn handle_close<B: Backend<Value = P>>(
        &mut self,
        name: StatementName,
        backend: &mut Recorded<B>,
        channel: &mut Channel,
    ) -> (r: (Result<Response<B::Resultset>, Error>, Ghost<EngineAnswers<B::Resultset>>))
        ensures
            model::step_close(old(self).logged(old(backend).log()), old(channel)@, name@, r.1@) == (
            Outcome {
                protocol: final(self).logged(final(backend).log()),
                channel: final(channel)@,
                result: result_view(r.0),
            }),
    {
        match name {
            StatementName::Portal(name) => (
                Ok(self.close_portal(name.as_str())),
                Ghost(arbitrary()),
            ),
            StatementName::PreparedStatement(name) => match self.statement_id(name.as_str()) {
                None => (
                    Ok(Response::Message(BackendMessage::CloseComplete)),
                    Ghost(arbitrary()),
                ),
                Some(statement_id) => {
                    let closed = backend.on_close(statement_id);
                    let ghost answers = EngineAnswers { close: unit_view(closed), ..arbitrary() };
                    match closed {
                        Err(e) => (Err(e), Ghost(answers)),
                        Ok(_) => (
                            Ok(self.forget_statement(name.as_str(), channel)),
                            Ghost(answers),
                        ),
                    }
                },
            },
        }
    }

    fn handle_parse<B: Backend<Value = P>>(
        &mut self,
        prepared_statement_name: String,
        query: String,
        backend: &mut Recorded<B>,
        channel: &mut Channel,
    ) -> (r: (Result<Response<B::Resultset>, Error>, Ghost<EngineAnswers<B::Resultset>>))
        ensures
            model::step_parse(
                old(self).logged(old(backend).log()),
                old(channel)@,
                prepared_statement_name@,
                query@,
                r.1@,
            ) == (Outcome {
                protocol: final(self).logged(final(backend).log()),
                channel: final(channel)@,
                result: result_view(r.0),
            }),
    {
        let prepared = backend.on_prepare(query.as_str());
        let ghost answers = EngineAnswers { prepare: prepare_view(prepared), ..arbitrary() };
        match prepared {
            Err(e) => (Err(e), Ghost(answers)),
            Ok(prepared) => (
                Ok(self.register_statement(prepared_statement_name, prepared, channel)),
                Ghost(answers),
            ),
        }
    }

    fn handle_execute<B: Backend<Value = P>>(
        &mut self,
        portal_name: String,
        backend: &mut Recorded<B>,
    ) -> (r: (Result<Response<B::Resultset>, Error>, Ghost<EngineAnswers<B::Resultset>>))
        ensures
            forall|channel: ChannelView| #[trigger]
                model::step_execute(
                    old(self).logged(old(backend).log()),
                    channel,
                    portal_name@,
                    r.1@,
                ) == (Outcome {
                    protocol: final(self).logged(final(backend).log()),
                    channel,
                    result: result_view(r.0),
                }),
    {
        self.state = State::Extended;
        let (executed, formats) = match self.portals.get(portal_name.as_str()) {
            None => {
                return (Err(Error::MissingPreparedStatement(portal_name)), Ghost(arbitrary()));
            },
            Some(portal) => (
                backend.on_execute(portal.prepared_statement_id, &portal.params),
                portal.result_transfer_formats.clone(),
            ),
        };
        let ghost answers = EngineAnswers { execute: query_view(executed), ..arbitrary() };
        match executed {
            Err(e) => (Err(e), Ghost(answers)),
            Ok(response) => (self.finish_execute(formats, response), Ghost(answers)),
        }
    }

    fn handle_describe<B: Backend<Value = P>>(
        &mut self,
        name: StatementName,
        backend: &mut Recorded<B>,
    ) -> (r: (Result<Response<B::Resultset>, Error>, Ghost<EngineAnswers<B::Resultset>>))
        ensures
            forall|channel: ChannelView| #[trigger]
                model::step_describe(old(self).logged(old(backend).log()), channel, name@, r.1@)
                    == (Outcome {
                    protocol: final(self).logged(final(backend).log()),
                    channel,
                    result: result_view(r.0),
                }),
    {
        match name {
            StatementName::Portal(name) => {
                let portal = match self.portals.get(name.as_str()) {
                    None => {
                        return (Err(Error::MissingPortal(name)), Ghost(arbitrary()));
                    },
                    Some(portal) => portal,
                };
                let statement = match self.prepared_statements.get(
                    portal.prepared_statement_name.as_str(),
                ) {
                    None => {
                        return (
                            Err(Error::internal("missing prepared statement")),
                            Ghost(arbitrary()),
                        );
                    },
                    Some(statement) => statement,
                };
                let (fields, asked, catalog) = describe_columns(
                    &statement.row_schema,
                    Some(&*portal.result_transfer_formats),
                    backend,
                    &mut self.extended_types,
                );
                let ghost answers = EngineAnswers { catalog: catalog@, ..arbitrary() };
                match fields {
                    Err(e) => (Err(e), Ghost(answers)),
                    Ok(fields) => (Ok(portal_description(fields)), Ghost(answers)),
                }
            },
            StatementName::PreparedStatement(name) => {
                let statement = match self.prepared_statements.get(name.as_str()) {
                    None => {
                        return (Err(Error::MissingPreparedStatement(name)), Ghost(arbitrary()));
                    },
                    Some(statement) => statement,
                };
                let types = copy_types(&statement.param_schema);
                let (fields, asked, catalog) = describe_columns(
                    &statement.row_schema,
                    None,
                    backend,
                    &mut self.extended_types,
                );
                let ghost answers = EngineAnswers { catalog: catalog@, ..arbitrary() };
                match fields {
                    Err(e) => (Err(e), Ghost(answers)),
                    Ok(fields) => (Ok(statement_description(types, fields)), Ghost(answers)),
                }
            },
        }
    }

    fn handle_query<B: Backend<Value = P>>(
        &mut self,
        query: String,
        backend: &mut Recorded<B>,
    ) -> (r: (Result<Response<B::Resultset>, Error>, Ghost<EngineAnswers<B::Resultset>>))
        ensures
            forall|channel: ChannelView| #[trigger]
                model::step_query(old(self).logged(old(backend).log()), channel, query@, r.1@) == (
                Outcome {
                    protocol: final(self).logged(final(backend).log()),
                    channel,
                    result: result_view(r.0),
                }),
    {
        let answer = backend.on_query(query.as_str());
        let ghost answered = query_view(answer);
        match answer {
            Err(e) => (Err(e), Ghost(EngineAnswers { query: answered, ..arbitrary() })),
            Ok(response) => {
                let ghost before = self.logged(backend.log());
                let ghost given = response@;
                let result = self.finish_query(response, backend);
                let ghost catalog = choose|catalog: Result<
                    QueryResponseView<B::Resultset>,
                    ErrorView,
                >| #[trigger]
                    model::query_outcome(before, given, catalog) == (
                        self.logged(backend.log()),
                        result_view(result),
                    );
                (result, Ghost(EngineAnswers { query: answered, catalog, ..arbitrary() }))
            },
        }
    }
}

impl<P> Protocol<P> {
    /// Handles one request of the frontend and says what to answer.
    ///
    /// What a request does depends on the state of the session first, then
    /// on the kind of the request. The state of the session and of the
    /// framing afterwards, the calls recorded as made on the engine, and the
    /// answer are those of [`model::step`], for what the engine answered. A
    /// request that is not valid in the state of the session is refused and
    /// changes nothing.
    ///
    /// The engine is reached through a [`Recorded`] made here, which keeps
    /// the record of the calls; what the engine answers is not in the hands
    /// of this function, which is why the contract speaks of answers that
    /// exist. What is done with each answer is stated exactly by the
    /// functions that take the answer as an argument: [`Protocol::after_init`],
    /// [`Protocol::let_in`], [`Protocol::register_statement`],
    /// [`Protocol::forget_statement`], [`Protocol::finish_execute`] and
    /// [`Protocol::finish_query`].
    ///
    /// On `Err`, the caller reports the failure with [`Protocol::on_error`].
    pub fn on_request<B: Backend<Value = P>>(
        &mut self,
        message: FrontendMessage<P>,
        backend: &mut B,
        channel: &mut Channel,
    ) -> (result: Result<Response<B::Resultset>, Error>)
        ensures
            exists|answers: EngineAnswers<B::Resultset>| #[trigger]
                model::step(old(self)@, old(channel)@, message@, answers) == (Outcome {
                    protocol: final(self)@,
                    channel: final(channel)@,
                    result: result_view(result),
                }),
    {
        let ghost request = message@;
        let starting_up = match &self.state {
            State::StartingUp => true,
            _ => false,
        };
        let authenticating = match &self.state {
            State::Authenticating { user } => Some(user.clone()),
            _ => None,
        };
        let mut engine = Recorded::resume(backend, Ghost(self.engine_log@));
        let (result, answers) = if starting_up {
            match message {
                FrontendMessage::SSLRequest => (
                    Ok(Response::Message(BackendMessage::ssl_response_n())),
                    Ghost(arbitrary()),
                ),
                FrontendMessage::StartupMessage {
                    protocol_version,
                    user,
                    database,
                } => self.handle_startup(database, user, &mut engine, channel),
                m => (Err(Error::UnsupportedMessage(m.kind())), Ghost(arbitrary())),
            }
        } else if let Some(user) = authenticating {
            match message {
                FrontendMessage::PasswordMessage { password } => self.handle_password(
                    user,
                    password,
                    &mut engine,
                ),
                m => (Err(Error::UnsupportedMessage(m.kind())), Ghost(arbitrary())),
            }
        } else {
            match message {
                FrontendMessage::Bind {
                    prepared_statement_name,
                    portal_name,
                    params,
                    result_transfer_formats,
                } => (
                    self.bind(prepared_statement_name, portal_name, params, result_transfer_formats),
                    Ghost(arbitrary()),
                ),
                FrontendMessage::Close { name } => self.handle_close(name, &mut engine, channel),
                FrontendMessage::Describe { name } => self.handle_describe(name, &mut engine),
                FrontendMessage::Execute { portal_name, limit } => self.handle_execute(
                    portal_name,
                    &mut engine,
                ),
                FrontendMessage::Query { query } => self.handle_query(query, &mut engine),
                FrontendMessage::Parse {
                    prepared_statement_name,
                    query,
                    parameter_data_types,
                } => self.handle_parse(prepared_statement_name, query, &mut engine, channel),
                FrontendMessage::Sync => (Ok(self.sync()), Ghost(arbitrary())),
                FrontendMessage::Flush => (Ok(Response::Empty), Ghost(arbitrary())),
                FrontendMessage::Terminate => (Ok(Response::Empty), Ghost(arbitrary())),
                m => (Err(Error::UnsupportedMessage(m.kind())), Ghost(arbitrary())),
            }
        };
        proof {
            self.engine_log@ = engine.log();
            assert(model::step(old(self)@, old(channel)@, request, answers@) == (Outcome {
                protocol: self@,
                channel: channel@,
                result: result_view(result),
            }));
        }
        result
    }
}

/// A copy of a list of types.
pub fn copy_types(types: &Vec<Type>) -> (copy: Vec<Type>)
    ensures
        copy@ == types@,
{
    let mut copy: Vec<Type> = Vec::new();
    let mut i: usize = 0;
    while i < types.len()
        invariant
            i <= types.len(),
            copy@ == types@.take(i as int),
        decreases types.len() - i,
    {
        copy.push(types[i]);
        assert(copy@ =~= types@.take(i + 1));
        i = i + 1;
    }
    assert(types@.take(types.len() as int) =~= types@);
    copy
}

} // verus!
