//! What holds of every session, whatever the requests and whatever the engine
//! answers. Each law is stated of [`step`], which [`Protocol::on_request`]
//! is proved to follow, and of [`step_error`], which [`Protocol::on_error`]
//! is proved to follow.
//!
//! Where a law speaks of the calls made on the engine, it speaks of the
//! session's record of them, `engine_log`. The record is kept by
//! [`Recorded`], the one way by which a session reaches the engine: each of
//! its methods makes one call and writes one entry. That a call was made
//! exactly as often as it is in the record rests on those methods; the
//! engine itself is behind a trait of which nothing is assumed.
//!
//! [`Protocol::on_request`]: crate::protocol::Protocol::on_request
//! [`Protocol::on_error`]: crate::protocol::Protocol::on_error
//! [`Recorded`]: crate::engine::Recorded

use vstd::prelude::*;
use crate::backend::{ColumnView, CredentialsNeeded, QueryResponseView};
use crate::channel::ChannelView;
use crate::error::ErrorView;
use crate::message::{
    BackendMessageView, FrontendMessageView, MessageKind, StatementNameView, TransferFormat,
    ATTTYPMOD_NONE, UNKNOWN_COLUMN, UNKNOWN_TABLE,
};
use crate::model::{
    describe_prefix, format_at, step, step_error, EngineAnswers, EngineCall, Outcome, ProtocolView,
    StateView,
};
use crate::response::ResponseView;
use crate::sqlstate;

verus! {

/// The states in which a session takes the regular requests.
pub open spec fn is_regular(state: StateView) -> bool {
    state is Ready || state is Extended || state is Error
}

/// A start-up request that names a database, answered by an engine that
/// wants no credentials, takes the session from `StartingUp` to `Ready`. The
/// response is the ready sequence and nothing else: the authentication is
/// fine, the five session parameters in their fixed order, the last of them
/// the version that the engine reports, and the session is idle.
pub proof fn law_startup_without_credentials<P, S>(
    protocol: ProtocolView<P>,
    channel: ChannelView,
    protocol_version: i32,
    user: Option<Seq<char>>,
    database: Seq<char>,
    answers: EngineAnswers<S>,
)
    requires
        protocol.state is StartingUp,
        answers.init == Ok::<CredentialsNeeded, ErrorView>(CredentialsNeeded::Nothing),
    ensures
        ({
            let after = step(
                protocol,
                channel,
                FrontendMessageView::StartupMessage {
                    protocol_version,
                    user,
                    database: Some(database),
                },
                answers,
            );
            &&& after.protocol.state is Ready
            &&& after.channel.start_up_complete
            &&& after.protocol.engine_log == protocol.engine_log.push(
                EngineCall::Init { database },
            )
            &&& after.result == Ok::<ResponseView<S>, ErrorView>(
                ResponseView::Messages(
                    seq![
                        BackendMessageView::AuthenticationOk,
                        BackendMessageView::ParameterStatus {
                            parameter_name: "client_encoding"@,
                            parameter_value: "UTF8"@,
                        },
                        BackendMessageView::ParameterStatus {
                            parameter_name: "DateStyle"@,
                            parameter_value: "ISO"@,
                        },
                        BackendMessageView::ParameterStatus {
                            parameter_name: "TimeZone"@,
                            parameter_value: "UTC"@,
                        },
                        BackendMessageView::ParameterStatus {
                            parameter_name: "standard_conforming_strings"@,
                            parameter_value: "on"@,
                        },
                        BackendMessageView::ParameterStatus {
                            parameter_name: "server_version"@,
                            parameter_value: answers.version,
                        },
                        BackendMessageView::ReadyForQuery { status: 73 },
                    ],
                ),
            )
        }),
{
}

/// A start-up request that names no database is an error, whatever else it
/// holds; the engine is not asked, and the session stays `StartingUp`.
pub proof fn law_startup_without_database<P, S>(
    protocol: ProtocolView<P>,
    channel: ChannelView,
    protocol_version: i32,
    user: Option<Seq<char>>,
    answers: EngineAnswers<S>,
)
    requires
        protocol.state is StartingUp,
    ensures
        ({
            let after = step(
                protocol,
                channel,
                FrontendMessageView::StartupMessage { protocol_version, user, database: None },
                answers,
            );
            &&& after.result is Err
            &&& after.protocol == protocol
            &&& after.protocol.state is StartingUp
            &&& after.channel == channel
        }),
{
}

/// A start-up request to a session that is not `StartingUp` is an error, and
/// changes nothing.
pub proof fn law_startup_in_another_state<P, S>(
    protocol: ProtocolView<P>,
    channel: ChannelView,
    protocol_version: i32,
    user: Option<Seq<char>>,
    database: Option<Seq<char>>,
    answers: EngineAnswers<S>,
)
    requires
        !(protocol.state is StartingUp),
    ensures
        ({
            let after = step(
                protocol,
                channel,
                FrontendMessageView::StartupMessage { protocol_version, user, database },
                answers,
            );
            &&& after.result == Err::<ResponseView<S>, ErrorView>(
                ErrorView::UnsupportedMessage(MessageKind::StartupMessage),
            )
            &&& after.protocol == protocol
            &&& after.channel == channel
        }),
{
}

/// The formats that a bind request stores. Bound to a statement of `n`
/// result columns, a request with no formats stores `n` times text, a request
/// with one format stores `n` times that format, and a request with `n`
/// formats stores them as they are. A request with any other number of
/// formats is an error that carries `n`, and makes no portal: the portals are
/// what they were.
pub proof fn law_bind_formats<P, S>(
    protocol: ProtocolView<P>,
    channel: ChannelView,
    prepared_statement_name: Seq<char>,
    portal_name: Seq<char>,
    params: Seq<P>,
    result_transfer_formats: Seq<TransferFormat>,
    answers: EngineAnswers<S>,
)
    requires
        is_regular(protocol.state),
        protocol.prepared_statements.contains_key(prepared_statement_name),
    ensures
        ({
            let statement = protocol.prepared_statements[prepared_statement_name];
            let n = statement.row_schema.len();
            let k = result_transfer_formats.len();
            let after = step(
                protocol,
                channel,
                FrontendMessageView::Bind {
                    prepared_statement_name,
                    portal_name,
                    params,
                    result_transfer_formats,
                },
                answers,
            );
            let stored = after.protocol.portals[portal_name];
            &&& (k == 0 || k == 1 || k == n) ==> {
                &&& after.result == Ok::<ResponseView<S>, ErrorView>(
                    ResponseView::Message(BackendMessageView::BindComplete),
                )
                &&& after.protocol.portals.contains_key(portal_name)
                &&& after.protocol.portals == protocol.portals.insert(portal_name, stored)
                &&& stored.prepared_statement_id == statement.prepared_statement_id
                &&& stored.prepared_statement_name == prepared_statement_name
                &&& stored.params == params
                &&& stored.result_transfer_formats.len() == n
            }
            &&& k == 0 ==> forall|i: int|
                0 <= i < n ==> stored.result_transfer_formats[i] == TransferFormat::Text
            &&& k == 1 ==> forall|i: int|
                0 <= i < n ==> stored.result_transfer_formats[i] == result_transfer_formats[0]
            &&& k != 0 && k != 1 && k == n ==> stored.result_transfer_formats
                == result_transfer_formats
            &&& k != 0 && k != 1 && k != n ==> {
                &&& after.result == Err::<ResponseView<S>, ErrorView>(
                    ErrorView::IncorrectFormatCount(n as usize),
                )
                &&& after.protocol == protocol
            }
            &&& after.protocol.state == protocol.state
            &&& after.protocol.engine_log == protocol.engine_log
            &&& after.channel == channel
        }),
{
}

/// Closing a portal never fails, whether or not there is such a portal, and
/// makes no call on the engine; afterwards there is no portal of that name.
pub proof fn law_close_portal<P, S>(
    protocol: ProtocolView<P>,
    channel: ChannelView,
    name: Seq<char>,
    answers: EngineAnswers<S>,
)
    requires
        is_regular(protocol.state),
    ensures
        ({
            let after = step(
                protocol,
                channel,
                FrontendMessageView::Close { name: StatementNameView::Portal(name) },
                answers,
            );
            &&& after.result == Ok::<ResponseView<S>, ErrorView>(
                ResponseView::Message(BackendMessageView::CloseComplete),
            )
            &&& !after.protocol.portals.contains_key(name)
            &&& after.protocol.engine_log == protocol.engine_log
            &&& after.protocol.prepared_statements == protocol.prepared_statements
            &&& !protocol.portals.contains_key(name) ==> after.protocol == protocol
            &&& after.channel == channel
        }),
{
    let after = step::<P, S>(
        protocol,
        channel,
        FrontendMessageView::Close { name: StatementNameView::Portal(name) },
        answers,
    );
    if !protocol.portals.contains_key(name) {
        assert(after.protocol.portals =~= protocol.portals);
    }
}

/// Closing a prepared statement that does not exist never fails, makes no
/// call on the engine and changes nothing.
pub proof fn law_close_missing_statement<P, S>(
    protocol: ProtocolView<P>,
    channel: ChannelView,
    name: Seq<char>,
    answers: EngineAnswers<S>,
)
    requires
        is_regular(protocol.state),
        !protocol.prepared_statements.contains_key(name),
    ensures
        step(
            protocol,
            channel,
            FrontendMessageView::Close { name: StatementNameView::PreparedStatement(name) },
            answers,
        ) == (Outcome {
            protocol,
            channel,
            result: Ok::<ResponseView<S>, ErrorView>(
                ResponseView::Message(BackendMessageView::CloseComplete),
            ),
        }),
{
}

/// Closing a prepared statement that exists adds one call to the record of
/// the calls on the engine: the engine's close, with the statement's handle. Where the engine
/// lets go of the statement, the statement is gone from the session and from
/// the framing, and the request succeeds; the portals stay. Where the engine
/// fails, its error is the result, and the statement stays.
pub proof fn law_close_statement<P, S>(
    protocol: ProtocolView<P>,
    channel: ChannelView,
    name: Seq<char>,
    answers: EngineAnswers<S>,
)
    requires
        is_regular(protocol.state),
        protocol.prepared_statements.contains_key(name),
    ensures
        ({
            let after = step(
                protocol,
                channel,
                FrontendMessageView::Close { name: StatementNameView::PreparedStatement(name) },
                answers,
            );
            &&& after.protocol.engine_log == protocol.engine_log.push(
                EngineCall::Close {
                    statement_id: protocol.prepared_statements[name].prepared_statement_id,
                },
            )
            &&& after.protocol.portals == protocol.portals
            &&& after.protocol.state == protocol.state
            &&& answers.close is Ok ==> {
                &&& after.result == Ok::<ResponseView<S>, ErrorView>(
                    ResponseView::Message(BackendMessageView::CloseComplete),
                )
                &&& after.protocol.prepared_statements == protocol.prepared_statements.remove(
                    name,
                )
                &&& !after.protocol.prepared_statements.contains_key(name)
                &&& !after.channel.statement_param_types.contains_key(name)
            }
            &&& answers.close matches Err(e) ==> {
                &&& after.result == Err::<ResponseView<S>, ErrorView>(e)
                &&& after.protocol.prepared_statements == protocol.prepared_statements
                &&& after.channel == channel
            }
        }),
{
}

/// Closing the same prepared statement a second time does nothing: after a
/// close that succeeded, the same request succeeds again, makes no call on
/// the engine, and leaves the session and the framing as they are.
pub proof fn law_close_statement_twice<P, S>(
    protocol: ProtocolView<P>,
    channel: ChannelView,
    name: Seq<char>,
    first_answers: EngineAnswers<S>,
    second_answers: EngineAnswers<S>,
)
    requires
        is_regular(protocol.state),
        step(
            protocol,
            channel,
            FrontendMessageView::Close { name: StatementNameView::PreparedStatement(name) },
            first_answers,
        ).result is Ok,
    ensures
        ({
            let request = FrontendMessageView::Close {
                name: StatementNameView::PreparedStatement(name),
            };
            let first = step(protocol, channel, request, first_answers);
            let second = step(first.protocol, first.channel, request, second_answers);
            &&& second.result == Ok::<ResponseView<S>, ErrorView>(
                ResponseView::Message(BackendMessageView::CloseComplete),
            )
            &&& second.protocol == first.protocol
            &&& second.channel == first.channel
        }),
{
}

/// Every description among the first `k` is that of the column at its place:
/// the column's name and type, in the format at its place, naming no table.
pub proof fn lemma_described_fields<S>(
    columns: Seq<ColumnView>,
    formats: Option<Seq<TransferFormat>>,
    cache: Map<u32, i16>,
    catalog: Result<QueryResponseView<S>, ErrorView>,
    k: nat,
)
    requires
        describe_prefix(columns, formats, cache, catalog, k).fields is Ok,
    ensures
        ({
            let fields = describe_prefix(columns, formats, cache, catalog, k).fields->Ok_0;
            &&& fields.len() == k
            &&& forall|i: int|
                0 <= i < k ==> {
                    &&& (#[trigger] fields[i]).field_name == columns[i].name
                    &&& fields[i].data_type == columns[i].col_type
                    &&& fields[i].transfer_format == format_at(formats, i)
                    &&& fields[i].table_id == UNKNOWN_TABLE
                    &&& fields[i].col_id == UNKNOWN_COLUMN
                    &&& fields[i].type_modifier == ATTTYPMOD_NONE
                }
        }),
    decreases k,
{
    if k > 0 {
        let before = describe_prefix(columns, formats, cache, catalog, (k - 1) as nat);
        lemma_described_fields(columns, formats, cache, catalog, (k - 1) as nat);
    }
}

/// Describing a portal right after it was bound, where it succeeds, gives one
/// field description for each result column of the statement, in the order
/// of the schema. Each carries the name and the type of its column and the
/// format that the bind request stored for it.
pub proof fn law_describe_portal_after_bind<P, S>(
    protocol: ProtocolView<P>,
    channel: ChannelView,
    prepared_statement_name: Seq<char>,
    portal_name: Seq<char>,
    params: Seq<P>,
    result_transfer_formats: Seq<TransferFormat>,
    bind_answers: EngineAnswers<S>,
    describe_answers: EngineAnswers<S>,
)
    requires
        is_regular(protocol.state),
        step(
            protocol,
            channel,
            FrontendMessageView::Bind {
                prepared_statement_name,
                portal_name,
                params,
                result_transfer_formats,
            },
            bind_answers,
        ).result is Ok,
    ensures
        ({
            let bound = step(
                protocol,
                channel,
                FrontendMessageView::Bind {
                    prepared_statement_name,
                    portal_name,
                    params,
                    result_transfer_formats,
                },
                bind_answers,
            );
            let schema = protocol.prepared_statements[prepared_statement_name].row_schema;
            let stored = bound.protocol.portals[portal_name].result_transfer_formats;
            let described = step(
                bound.protocol,
                bound.channel,
                FrontendMessageView::Describe { name: StatementNameView::Portal(portal_name) },
                describe_answers,
            );
            &&& stored.len() == schema.len()
            &&& described.result matches Ok(response) ==> {
                &&& response matches ResponseView::Message(
                    BackendMessageView::RowDescription { field_descriptions },
                )
                &&& field_descriptions.len() == schema.len()
                &&& forall|i: int|
                    0 <= i < schema.len() ==> {
                        &&& (#[trigger] field_descriptions[i]).transfer_format == stored[i]
                        &&& field_descriptions[i].field_name == schema[i].name
                        &&& field_descriptions[i].data_type == schema[i].col_type
                    }
            }
            &&& described.protocol.portals == bound.protocol.portals
            &&& described.protocol.prepared_statements == bound.protocol.prepared_statements
            &&& described.protocol.state == bound.protocol.state
        }),
{
    let bound = step(
        protocol,
        channel,
        FrontendMessageView::Bind {
            prepared_statement_name,
            portal_name,
            params,
            result_transfer_formats,
        },
        bind_answers,
    );
    let schema = protocol.prepared_statements[prepared_statement_name].row_schema;
    let stored = bound.protocol.portals[portal_name].result_transfer_formats;
    assert(stored.len() == schema.len());
    if describe_prefix(
        schema,
        Some(stored),
        bound.protocol.extended_types,
        describe_answers.catalog,
        schema.len(),
    ).fields is Ok {
        lemma_described_fields(
            schema,
            Some(stored),
            bound.protocol.extended_types,
            describe_answers.catalog,
            schema.len(),
        );
    }
}

/// Executing a portal that does not exist makes no call on the engine and
/// fails with the error of a missing prepared statement, which is reported
/// under the code for an undefined prepared statement. The session is left
/// `Extended`; reporting the failure takes it to `Error` with the error
/// message as the whole response, and the next request to synchronize takes
/// it back to `Ready`.
pub proof fn law_execute_missing_portal<P, S>(
    protocol: ProtocolView<P>,
    channel: ChannelView,
    portal_name: Seq<char>,
    limit: i32,
    answers: EngineAnswers<S>,
    sync_answers: EngineAnswers<S>,
)
    requires
        is_regular(protocol.state),
        !protocol.portals.contains_key(portal_name),
    ensures
        ({
            let error = ErrorView::MissingPreparedStatement(portal_name);
            let executed = step(
                protocol,
                channel,
                FrontendMessageView::Execute { portal_name, limit },
                answers,
            );
            let reported = step_error::<P, S>(executed.protocol, error);
            let synced = step(reported.0, executed.channel, FrontendMessageView::Sync, sync_answers);
            &&& executed.result == Err::<ResponseView<S>, ErrorView>(error)
            &&& error.sqlstate() == sqlstate::UNDEFINED_PSTATEMENT@
            &&& executed.protocol == protocol.with_state(StateView::Extended)
            &&& executed.channel == channel
            &&& reported.0.state is Error
            &&& reported.1 == ResponseView::<S>::Message(error.response())
            &&& synced.protocol.state is Ready
            &&& synced.result == Ok::<ResponseView<S>, ErrorView>(
                ResponseView::Message(BackendMessageView::ReadyForQuery { status: 73 }),
            )
        }),
{
}

/// Executing a portal that exists adds one call to the record of the calls
/// on the engine: the execution, with the handle and the parameter values of
/// the portal. Where the engine answers with rows or
/// with a command result, the session is `Ready` again; rows are handed on
/// with the formats that the portal stores.
pub proof fn law_execute_portal<P, S>(
    protocol: ProtocolView<P>,
    channel: ChannelView,
    portal_name: Seq<char>,
    limit: i32,
    answers: EngineAnswers<S>,
)
    requires
        is_regular(protocol.state),
        protocol.portals.contains_key(portal_name),
    ensures
        ({
            let portal = protocol.portals[portal_name];
            let executed = step(
                protocol,
                channel,
                FrontendMessageView::Execute { portal_name, limit },
                answers,
            );
            &&& executed.protocol.engine_log == protocol.engine_log.push(
                EngineCall::Execute {
                    statement_id: portal.prepared_statement_id,
                    params: portal.params,
                },
            )
            &&& executed.result is Ok ==> executed.protocol.state is Ready
            &&& executed.result is Err ==> executed.protocol.state is Extended
            &&& answers.execute matches Ok(QueryResponseView::Select { schema, resultset })
                ==> executed.result == Ok::<ResponseView<S>, ErrorView>(
                ResponseView::Select {
                    header: None,
                    resultset,
                    result_transfer_formats: Some(portal.result_transfer_formats),
                    trailer: None,
                },
            )
            &&& executed.protocol.portals == protocol.portals
            &&& executed.protocol.prepared_statements == protocol.prepared_statements
        }),
{
}

/// How a failure is reported. In the states `StartingUp` and `Extended` the
/// response is the error message alone and the session goes to `Error`; a
/// request to synchronize then answers that the session is idle and takes it
/// to `Ready`. In every other state the response is the error message
/// followed by the message that the session is idle, and the session stays
/// as it is.
pub proof fn law_error_report<P, S>(
    protocol: ProtocolView<P>,
    channel: ChannelView,
    error: ErrorView,
    answers: EngineAnswers<S>,
)
    ensures
        ({
            let reported = step_error::<P, S>(protocol, error);
            let synced = step(reported.0, channel, FrontendMessageView::Sync, answers);
            &&& (protocol.state is StartingUp || protocol.state is Extended) ==> {
                &&& reported.1 == ResponseView::<S>::Message(error.response())
                &&& reported.0 == protocol.with_state(StateView::Error)
                &&& synced.result == Ok::<ResponseView<S>, ErrorView>(
                    ResponseView::Message(BackendMessageView::ReadyForQuery { status: 73 }),
                )
                &&& synced.protocol == protocol.with_state(StateView::Ready)
            }
            &&& !(protocol.state is StartingUp || protocol.state is Extended) ==> {
                &&& reported.1 == ResponseView::<S>::Messages(
                    seq![error.response(), BackendMessageView::ReadyForQuery { status: 73 }],
                )
                &&& reported.0 == protocol
            }
        }),
{
}

/// The moves that a request can make. A session that is `StartingUp` stays so
/// or becomes `Ready` or `Authenticating`; one that is `Authenticating` stays
/// so, for the same user, or becomes `Ready`; one that is `Ready`, `Extended`
/// or in `Error` stays as it is or becomes `Ready` or `Extended`. No request
/// takes a session to `Error`: only the report of a failure does.
pub proof fn law_moves_of_a_request<P, S>(
    protocol: ProtocolView<P>,
    channel: ChannelView,
    message: FrontendMessageView<P>,
    answers: EngineAnswers<S>,
)
    ensures
        ({
            let before = protocol.state;
            let after = step(protocol, channel, message, answers).protocol.state;
            ||| after == before
            ||| before is StartingUp && (after is Ready || after is Authenticating)
            ||| before is Authenticating && after is Ready
            ||| is_regular(before) && (after is Ready || after is Extended)
        }),
{
}

/// The moves that the report of a failure can make: from `StartingUp` and
/// from `Extended` to `Error`, and none from any other state. It changes
/// nothing else of the session.
pub proof fn law_moves_of_an_error_report<P, S>(protocol: ProtocolView<P>, error: ErrorView)
    ensures
        ({
            let reported = step_error::<P, S>(protocol, error).0;
            &&& reported == protocol.with_state(reported.state)
            &&& if protocol.state is StartingUp || protocol.state is Extended {
                reported.state is Error
            } else {
                reported.state == protocol.state
            }
        }),
{
}

/// A request never takes a session in one of the states `Ready`, `Extended`
/// and `Error` out of these three, and takes it to `Error` only if it was
/// there; and it never takes calls off the log.
pub proof fn law_regular_states_are_closed<P, S>(
    protocol: ProtocolView<P>,
    channel: ChannelView,
    message: FrontendMessageView<P>,
    answers: EngineAnswers<S>,
)
    requires
        is_regular(protocol.state),
    ensures
        ({
            let after = step(protocol, channel, message, answers);
            &&& is_regular(after.protocol.state)
            &&& after.protocol.state is Error ==> protocol.state is Error
            &&& protocol.engine_log.is_prefix_of(after.protocol.engine_log)
        }),
{
}

/// A request that is not valid in the state of the session is refused as an
/// unsupported message, and changes nothing.
pub proof fn law_unsupported_message_changes_nothing<P, S>(
    protocol: ProtocolView<P>,
    channel: ChannelView,
    message: FrontendMessageView<P>,
    answers: EngineAnswers<S>,
)
    requires
        match protocol.state {
            StateView::StartingUp => !(message is SSLRequest || message is StartupMessage),
            StateView::Authenticating { .. } => !(message is PasswordMessage),
            _ => message is SSLRequest || message is StartupMessage || message is PasswordMessage,
        },
    ensures
        step(protocol, channel, message, answers) == (Outcome {
            protocol,
            channel,
            result: Err::<ResponseView<S>, ErrorView>(
                ErrorView::UnsupportedMessage(message.kind()),
            ),
        }),
{
}

} // verus!
