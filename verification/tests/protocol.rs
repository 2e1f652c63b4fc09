use std::sync::Arc;

use psql_srv::backend::{Column, Credentials, CredentialsNeeded, PrepareResponse, QueryResponse};
use psql_srv::channel::Channel;
use psql_srv::error::Error;
use psql_srv::message::BackendMessage::{
    self, BindComplete, CloseComplete, CommandComplete, ErrorResponse, ParameterDescription,
    ParseComplete, RowDescription,
};
use psql_srv::message::StatementName::{Portal, PreparedStatement};
use psql_srv::message::{
    CommandCompleteTag, ErrorSeverity, FieldDescription, FrontendMessage, TransferFormat,
    ATTTYPMOD_NONE, UNKNOWN_COLUMN, UNKNOWN_TABLE,
};
use psql_srv::oid;
use psql_srv::pgtype::Type;
use psql_srv::protocol::{PortalData, PreparedStatementData, Protocol, State};
use psql_srv::response::{MessageList, Response};
use psql_srv::sqlstate::{self, SqlState};
use psql_srv::typlen::{TYPLEN_4, TYPLEN_8};

// The values that the dummy engine takes as parameters.
#[derive(Debug, Clone, PartialEq)]
enum DataValue {
    Int(i32),
    Double(f64),
}

// The values that the dummy engine returns in its rows.
#[derive(Debug, PartialEq)]
struct Value(DataValue);

// A dummy engine that records the values passed to it and can return a few hard-coded
// responses.
struct Backend {
    is_query_err: bool,
    is_query_read: bool,

    is_prepare_err: bool,

    database: Option<String>,
    last_query: Option<String>,
    last_prepare: Option<String>,
    last_close: Option<u32>,
    last_execute_id: Option<u32>,
    last_execute_params: Option<Vec<DataValue>>,
    needed_credentials: Option<Credentials>,
}

impl Backend {
    fn new() -> Backend {
        Backend {
            is_query_err: false,
            is_query_read: true,
            is_prepare_err: false,
            database: None,
            last_query: None,
            last_prepare: None,
            last_close: None,
            last_execute_id: None,
            last_execute_params: None,
            needed_credentials: None,
        }
    }
}

impl psql_srv::backend::Backend for Backend {
    type Value = DataValue;
    type Resultset = Vec<Vec<Value>>;

    fn on_init(&mut self, database: &str) -> Result<CredentialsNeeded, Error> {
        self.database = Some(database.to_string());
        match &self.needed_credentials {
            Some(_) => Ok(CredentialsNeeded::Cleartext),
            None => Ok(CredentialsNeeded::Nothing),
        }
    }

    fn version(&self) -> String {
        "14.5 ReadySet".to_string()
    }

    fn on_auth(&mut self, provided: Credentials) -> Result<(), Error> {
        let needed_credentials = match &self.needed_credentials {
            Some(n) => n,
            None => return Ok(()),
        };

        match (needed_credentials, &provided) {
            (needed, provided) if needed == provided => Ok(()),
            (Credentials::Cleartext { .. }, Credentials::Cleartext { user, .. }) => {
                Err(Error::AuthenticationFailure(user.to_owned()))
            }
        }
    }

    fn on_query(&mut self, query: &str) -> Result<QueryResponse<Self::Resultset>, Error> {
        self.last_query = Some(query.to_string());
        if self.is_query_err {
            Err(Error::InternalError("error requested".to_string()))
        } else if self.is_query_read {
            Ok(QueryResponse::Select {
                schema: vec![
                    Column {
                        name: "col1".to_string(),
                        col_type: Type::simple(oid::INT4),
                    },
                    Column {
                        name: "col2".to_string(),
                        col_type: Type::simple(oid::FLOAT8),
                    },
                ],
                resultset: vec![
                    vec![Value(DataValue::Int(88)), Value(DataValue::Double(0.123))],
                    vec![Value(DataValue::Int(22)), Value(DataValue::Double(0.456))],
                ],
            })
        } else {
            Ok(QueryResponse::Delete(5))
        }
    }

    fn on_prepare(&mut self, query: &str) -> Result<PrepareResponse, Error> {
        self.last_prepare = Some(query.to_string());
        if self.is_prepare_err {
            Err(Error::InternalError("error requested".to_string()))
        } else {
            Ok(PrepareResponse {
                prepared_statement_id: 0,
                param_schema: vec![Type::simple(oid::FLOAT8), Type::simple(oid::INT4)],
                row_schema: vec![
                    Column {
                        name: "col1".to_string(),
                        col_type: Type::simple(oid::INT4),
                    },
                    Column {
                        name: "col2".to_string(),
                        col_type: Type::simple(oid::FLOAT8),
                    },
                ],
            })
        }
    }

    fn on_execute(
        &mut self,
        statement_id: u32,
        params: &[DataValue],
    ) -> Result<QueryResponse<Self::Resultset>, Error> {
        self.last_execute_id = Some(statement_id);
        self.last_execute_params = Some(params.to_vec());
        if self.is_query_err {
            Err(Error::InternalError("error requested".to_string()))
        } else if self.is_query_read {
            Ok(QueryResponse::Select {
                schema: vec![
                    Column {
                        name: "col1".to_string(),
                        col_type: Type::simple(oid::INT4),
                    },
                    Column {
                        name: "col2".to_string(),
                        col_type: Type::simple(oid::FLOAT8),
                    },
                ],
                resultset: vec![
                    vec![Value(DataValue::Int(88)), Value(DataValue::Double(0.123))],
                    vec![Value(DataValue::Int(22)), Value(DataValue::Double(0.456))],
                ],
            })
        } else {
            Ok(QueryResponse::Delete(5))
        }
    }

    fn on_close(&mut self, statement_id: u32) -> Result<(), Error> {
        self.last_close = Some(statement_id);
        Ok(())
    }
}

#[test]
fn ssl_request() {
    let mut protocol: Protocol<DataValue> = Protocol::new();
    let request = FrontendMessage::SSLRequest;
    let mut backend = Backend::new();
    let mut channel = Channel::new();
    // SSLRequest is denied.
    assert_eq!(
        protocol.on_request(request, &mut backend, &mut channel).unwrap(),
        Response::Message(BackendMessage::ssl_response_n())
    );
}

#[test]
fn startup_message() {
    let mut protocol: Protocol<DataValue> = Protocol::new();
    assert_eq!(protocol.state, State::StartingUp);
    let request = FrontendMessage::StartupMessage {
        protocol_version: 12345,
        user: Some("user_name".to_string()),
        database: Some("database_name".to_string()),
    };
    let mut backend = Backend::new();
    let mut channel = Channel::new();
    // A StartupMessage with a database specified is accepted.
    assert_eq!(
        protocol.on_request(request, &mut backend, &mut channel).unwrap(),
        Response::Messages(MessageList::from_vec(vec![
            BackendMessage::AuthenticationOk,
            BackendMessage::ParameterStatus {
                parameter_name: "client_encoding".to_owned(),
                parameter_value: "UTF8".to_owned(),
            },
            BackendMessage::ParameterStatus {
                parameter_name: "DateStyle".to_owned(),
                parameter_value: "ISO".to_owned(),
            },
            BackendMessage::ParameterStatus {
                parameter_name: "TimeZone".to_owned(),
                parameter_value: "UTC".to_owned(),
            },
            BackendMessage::ParameterStatus {
                parameter_name: "standard_conforming_strings".to_owned(),
                parameter_value: "on".to_owned(),
            },
            BackendMessage::ParameterStatus {
                parameter_name: "server_version".to_owned(),
                parameter_value: "14.5 ReadySet".to_owned(),
            },
            BackendMessage::ready_for_query_idle()
        ]))
    );
    // The database has been set on the backend.
    assert_eq!(backend.database.unwrap(), "database_name");
    // The protocol is no longer "starting up".
    assert_eq!(protocol.state, State::Ready);
}

#[test]
fn authentication_flow_successful() {
    let expected_username = "user_name".to_string();
    let expected_password = "password".to_string();
    let mut protocol: Protocol<DataValue> = Protocol::new();
    assert_eq!(protocol.state, State::StartingUp);
    let request = FrontendMessage::StartupMessage {
        protocol_version: 12345,
        user: Some(expected_username.clone()),
        database: Some("database_name".to_string()),
    };
    let mut backend = Backend::new();
    backend.needed_credentials = Some(Credentials::Cleartext {
        user: expected_username.to_string(),
        password: expected_password.to_string(),
    });
    let mut channel = Channel::new();
    assert_eq!(
        protocol.on_request(request, &mut backend, &mut channel).unwrap(),
        Response::Messages(MessageList::from_vec(vec![BackendMessage::AuthenticationCleartextPassword]))
    );
    assert_eq!(
        protocol.state,
        State::Authenticating {
            user: expected_username
        }
    );

    let auth_request = FrontendMessage::PasswordMessage {
        password: expected_password,
    };

    assert_eq!(
        protocol.on_request(auth_request, &mut backend, &mut channel).unwrap(),
        Response::Messages(MessageList::from_vec(vec![
            BackendMessage::AuthenticationOk,
            BackendMessage::ParameterStatus {
                parameter_name: "client_encoding".to_owned(),
                parameter_value: "UTF8".to_owned(),
            },
            BackendMessage::ParameterStatus {
                parameter_name: "DateStyle".to_owned(),
                parameter_value: "ISO".to_owned(),
            },
            BackendMessage::ParameterStatus {
                parameter_name: "TimeZone".to_owned(),
                parameter_value: "UTC".to_owned(),
            },
            BackendMessage::ParameterStatus {
                parameter_name: "standard_conforming_strings".to_owned(),
                parameter_value: "on".to_owned(),
            },
            BackendMessage::ParameterStatus {
                parameter_name: "server_version".to_owned(),
                parameter_value: "14.5 ReadySet".to_owned(),
            },
            BackendMessage::ready_for_query_idle()
        ]))
    );
}

#[test]
fn authentication_flow_failure() {
    let expected_username = "user_name".to_string();
    let expected_password = "password".to_string();
    let provided_password = "incorrect password".to_string();
    let mut protocol: Protocol<DataValue> = Protocol::new();
    assert_eq!(protocol.state, State::StartingUp);
    let request = FrontendMessage::StartupMessage {
        protocol_version: 12345,
        user: Some(expected_username.clone()),
        database: Some("database_name".to_string()),
    };
    let mut backend = Backend::new();
    backend.needed_credentials = Some(Credentials::Cleartext {
        user: expected_username.to_string(),
        password: expected_password.to_string(),
    });
    let mut channel = Channel::new();
    assert_eq!(
        protocol.on_request(request, &mut backend, &mut channel).unwrap(),
        Response::Messages(MessageList::from_vec(vec![BackendMessage::AuthenticationCleartextPassword]))
    );
    assert_eq!(
        protocol.state,
        State::Authenticating {
            user: expected_username.clone()
        }
    );

    let auth_request = FrontendMessage::PasswordMessage {
        password: provided_password,
    };

    let output =
        protocol.on_request(auth_request, &mut backend, &mut channel).unwrap_err();
    assert!(
        matches!(output, Error::AuthenticationFailure(x) if x == expected_username.to_string())
    );
}

#[test]
fn startup_message_without_database() {
    let mut protocol: Protocol<DataValue> = Protocol::new();
    let request = FrontendMessage::StartupMessage {
        protocol_version: 12345,
        user: Some("user_name".to_string()),
        database: None,
    };
    let mut backend = Backend::new();
    let mut channel = Channel::new();
    // A StartupMessage with no database specified triggers an error.
    protocol.on_request(request, &mut backend, &mut channel).unwrap_err();
}

#[test]
fn regular_mode_message_without_startup() {
    let mut protocol: Protocol<DataValue> = Protocol::new();
    let request = FrontendMessage::Sync;
    let mut backend = Backend::new();
    let mut channel = Channel::new();
    // A Sync message cannot be sent until after a StartupMessage has been sent.
    protocol.on_request(request, &mut backend, &mut channel).unwrap_err();
}

#[test]
fn startup_message_repeated() {
    let mut protocol: Protocol<DataValue> = Protocol::new();
    let mut backend = Backend::new();
    let mut channel = Channel::new();

    let startup_request = FrontendMessage::StartupMessage {
        protocol_version: 12345,
        user: Some("user_name".to_string()),
        database: Some("database_name".to_string()),
    };
    protocol.on_request(startup_request, &mut backend, &mut channel).unwrap();

    // StartupMessage cannot be handled after the connection has already started.
    let request = FrontendMessage::StartupMessage {
        protocol_version: 12345,
        user: Some("user_name".to_string()),
        database: Some("database_name".to_string()),
    };
    protocol.on_request(request, &mut backend, &mut channel).unwrap_err();
}

#[test]
fn sync() {
    let mut protocol: Protocol<DataValue> = Protocol::new();
    let mut backend = Backend::new();
    let mut channel = Channel::new();

    let startup_request = FrontendMessage::StartupMessage {
        protocol_version: 12345,
        user: Some("user_name".to_string()),
        database: Some("database_name".to_string()),
    };
    protocol.on_request(startup_request, &mut backend, &mut channel).unwrap();

    // A Sync message is accepted (after connection start up completes).
    let request = FrontendMessage::Sync;
    assert_eq!(
        protocol.on_request(request, &mut backend, &mut channel).unwrap(),
        Response::Message(BackendMessage::ready_for_query_idle())
    );
}

#[test]
fn terminate() {
    let mut protocol: Protocol<DataValue> = Protocol::new();
    let mut backend = Backend::new();
    let mut channel = Channel::new();

    let startup_request = FrontendMessage::StartupMessage {
        protocol_version: 12345,
        user: Some("user_name".to_string()),
        database: Some("database_name".to_string()),
    };
    protocol.on_request(startup_request, &mut backend, &mut channel).unwrap();

    // A Terminate message is accepted (no response message is returned).
    let request = FrontendMessage::Terminate;
    assert_eq!(
        protocol.on_request(request, &mut backend, &mut channel).unwrap(),
        Response::Empty
    );
}

#[test]
fn query_read() {
    let mut protocol: Protocol<DataValue> = Protocol::new();
    let mut backend = Backend::new();
    let mut channel = Channel::new();

    let startup_request = FrontendMessage::StartupMessage {
        protocol_version: 12345,
        user: Some("user_name".to_string()),
        database: Some("database_name".to_string()),
    };
    protocol.on_request(startup_request, &mut backend, &mut channel).unwrap();

    // A read query is passed to the backend correctly and a suitable result is returned.
    let request = FrontendMessage::Query {
        query: "SELECT * FROM test;".to_string(),
    };
    assert_eq!(
        protocol.on_request(request, &mut backend, &mut channel).unwrap(),
        Response::Select {
            header: Some(RowDescription {
                field_descriptions: vec![
                    FieldDescription {
                        field_name: "col1".to_string(),
                        table_id: UNKNOWN_TABLE,
                        col_id: UNKNOWN_COLUMN,
                        data_type: Type::simple(oid::INT4),
                        data_type_size: TYPLEN_4,
                        type_modifier: ATTTYPMOD_NONE,
                        transfer_format: TransferFormat::Text
                    },
                    FieldDescription {
                        field_name: "col2".to_string(),
                        table_id: UNKNOWN_TABLE,
                        col_id: UNKNOWN_COLUMN,
                        data_type: Type::simple(oid::FLOAT8),
                        data_type_size: TYPLEN_8,
                        type_modifier: ATTTYPMOD_NONE,
                        transfer_format: TransferFormat::Text
                    },
                ],
            }),
            resultset: vec![
                vec![Value(DataValue::Int(88)), Value(DataValue::Double(0.123))],
                vec![Value(DataValue::Int(22)), Value(DataValue::Double(0.456))]
            ],
            result_transfer_formats: None,
            trailer: Some(BackendMessage::ready_for_query_idle())
        }
    );
    assert_eq!(backend.last_query.unwrap(), "SELECT * FROM test;");
}

#[test]
fn query_error() {
    let mut protocol: Protocol<DataValue> = Protocol::new();
    let mut backend = Backend::new();
    backend.is_query_err = true;
    let mut channel = Channel::new();

    let startup_request = FrontendMessage::StartupMessage {
        protocol_version: 12345,
        user: Some("user_name".to_string()),
        database: Some("database_name".to_string()),
    };
    protocol.on_request(startup_request, &mut backend, &mut channel).unwrap();

    // An `Error` is returned when the backend returns an error.
    let request = FrontendMessage::Query {
        query: "SELECT * FROM test;".to_string(),
    };
    protocol.on_request(request, &mut backend, &mut channel).unwrap_err();
}

#[test]
fn query_write() {
    let mut protocol: Protocol<DataValue> = Protocol::new();
    let mut backend = Backend::new();
    backend.is_query_read = false;
    let mut channel = Channel::new();

    let startup_request = FrontendMessage::StartupMessage {
        protocol_version: 12345,
        user: Some("user_name".to_string()),
        database: Some("database_name".to_string()),
    };
    protocol.on_request(startup_request, &mut backend, &mut channel).unwrap();

    // A write query is passed to the backend correctly and a suitable result is returned.
    let request = FrontendMessage::Query {
        query: "DELETE * FROM test;".to_string(),
    };
    assert_eq!(
        protocol.on_request(request, &mut backend, &mut channel).unwrap(),
        Response::Messages(MessageList::from_vec(vec![
            CommandComplete {
                tag: CommandCompleteTag::Delete(5)
            },
            BackendMessage::ready_for_query_idle()
        ]))
    );
    assert_eq!(backend.last_query.unwrap(), "DELETE * FROM test;");
}

#[test]
fn parse() {
    let mut protocol: Protocol<DataValue> = Protocol::new();
    let mut backend = Backend::new();
    let mut channel = Channel::new();

    let startup_request = FrontendMessage::StartupMessage {
        protocol_version: 12345,
        user: Some("user_name".to_string()),
        database: Some("database_name".to_string()),
    };
    protocol.on_request(startup_request, &mut backend, &mut channel).unwrap();

    // A parse message generates a correct prepared statement with the backend, correctly
    // updates Protocol prepared statement state, and produces a suitable response.
    let request = FrontendMessage::Parse {
        prepared_statement_name: "prepared1".to_string(),
        query: "SELECT * FROM test WHERE x = $1 AND y = $2;".to_string(),
        parameter_data_types: vec![],
    };
    assert_eq!(
        protocol.on_request(request, &mut backend, &mut channel).unwrap(),
        Response::Message(ParseComplete)
    );
    assert_eq!(
        backend.last_prepare.unwrap(),
        "SELECT * FROM test WHERE x = $1 AND y = $2;"
    );
    assert_eq!(
        *protocol.prepared_statements.get("prepared1").unwrap(),
        PreparedStatementData {
            prepared_statement_id: 0,
            param_schema: vec![Type::simple(oid::FLOAT8), Type::simple(oid::INT4)],
            row_schema: vec![
                Column {
                    name: "col1".to_string(),
                    col_type: Type::simple(oid::INT4)
                },
                Column {
                    name: "col2".to_string(),
                    col_type: Type::simple(oid::FLOAT8)
                },
            ],
        }
    );
}

#[test]
fn parse_error() {
    let mut protocol: Protocol<DataValue> = Protocol::new();
    let mut backend = Backend::new();
    backend.is_prepare_err = true;
    let mut channel = Channel::new();

    let startup_request = FrontendMessage::StartupMessage {
        protocol_version: 12345,
        user: Some("user_name".to_string()),
        database: Some("database_name".to_string()),
    };
    protocol.on_request(startup_request, &mut backend, &mut channel).unwrap();

    // An `Error` is returned when the backend returns an error.
    let request = FrontendMessage::Parse {
        prepared_statement_name: "prepared1".to_string(),
        query: "SELECT * FROM test WHERE x = $1 AND y = $2;".to_string(),
        parameter_data_types: vec![Type::simple(oid::FLOAT8), Type::simple(oid::INT4)],
    };
    protocol.on_request(request, &mut backend, &mut channel).unwrap_err();
}

#[test]
fn bind() {
    let mut protocol: Protocol<DataValue> = Protocol::new();
    let mut backend = Backend::new();
    let mut channel = Channel::new();

    let startup_request = FrontendMessage::StartupMessage {
        protocol_version: 12345,
        user: Some("user_name".to_string()),
        database: Some("database_name".to_string()),
    };
    protocol.on_request(startup_request, &mut backend, &mut channel).unwrap();

    let parse_request = FrontendMessage::Parse {
        prepared_statement_name: "prepared1".to_string(),
        query: "SELECT * FROM test WHERE x = $1 AND y = $2;".to_string(),
        parameter_data_types: vec![],
    };
    protocol.on_request(parse_request, &mut backend, &mut channel).unwrap();

    // A bind message generates correctly updates Protocol portal state and produces a suitable
    // response.
    let request = FrontendMessage::Bind {
        prepared_statement_name: "prepared1".to_string(),
        portal_name: "portal1".to_string(),
        params: vec![DataValue::Double(0.8887), DataValue::Int(45678)],
        result_transfer_formats: vec![TransferFormat::Text, TransferFormat::Binary],
    };
    assert_eq!(
        protocol.on_request(request, &mut backend, &mut channel).unwrap(),
        Response::Message(BindComplete)
    );
    assert_eq!(
        *protocol.portals.get("portal1").unwrap(),
        PortalData {
            prepared_statement_id: 0,
            prepared_statement_name: "prepared1".to_string(),
            params: vec![DataValue::Double(0.8887), DataValue::Int(45678)],
            result_transfer_formats: Arc::new(vec![
                TransferFormat::Text,
                TransferFormat::Binary
            ])
        }
    );
}

#[test]
fn bind_no_result_transfer_formats() {
    let mut protocol: Protocol<DataValue> = Protocol::new();
    let mut backend = Backend::new();
    let mut channel = Channel::new();

    let startup_request = FrontendMessage::StartupMessage {
        protocol_version: 12345,
        user: Some("user_name".to_string()),
        database: Some("database_name".to_string()),
    };
    protocol.on_request(startup_request, &mut backend, &mut channel).unwrap();

    let parse_request = FrontendMessage::Parse {
        prepared_statement_name: "prepared1".to_string(),
        query: "SELECT * FROM test WHERE x = $1 AND y = $2;".to_string(),
        parameter_data_types: vec![],
    };
    protocol.on_request(parse_request, &mut backend, &mut channel).unwrap();

    // A bind message generates correctly updates Protocol portal state and produces a suitable
    // response.
    let request = FrontendMessage::Bind {
        prepared_statement_name: "prepared1".to_string(),
        portal_name: "portal1".to_string(),
        params: vec![DataValue::Double(0.8887), DataValue::Int(45678)],
        result_transfer_formats: vec![],
    };
    assert_eq!(
        protocol.on_request(request, &mut backend, &mut channel).unwrap(),
        Response::Message(BindComplete)
    );
    assert_eq!(
        *protocol.portals.get("portal1").unwrap(),
        PortalData {
            prepared_statement_id: 0,
            prepared_statement_name: "prepared1".to_string(),
            params: vec![DataValue::Double(0.8887), DataValue::Int(45678)],
            // The transfer formats are set to the default value (Text).
            result_transfer_formats: Arc::new(vec![TransferFormat::Text, TransferFormat::Text])
        }
    );
}

#[test]
fn bind_single_result_transfer_format() {
    let mut protocol: Protocol<DataValue> = Protocol::new();
    let mut backend = Backend::new();
    let mut channel = Channel::new();

    let startup_request = FrontendMessage::StartupMessage {
        protocol_version: 12345,
        user: Some("user_name".to_string()),
        database: Some("database_name".to_string()),
    };
    protocol.on_request(startup_request, &mut backend, &mut channel).unwrap();

    let parse_request = FrontendMessage::Parse {
        prepared_statement_name: "prepared1".to_string(),
        query: "SELECT * FROM test WHERE x = $1 AND y = $2;".to_string(),
        parameter_data_types: vec![],
    };
    protocol.on_request(parse_request, &mut backend, &mut channel).unwrap();

    // A bind message generates correctly updates Protocol portal state and produces a suitable
    // response.
    let request = FrontendMessage::Bind {
        prepared_statement_name: "prepared1".to_string(),
        portal_name: "portal1".to_string(),
        params: vec![DataValue::Double(0.8887), DataValue::Int(45678)],
        result_transfer_formats: vec![TransferFormat::Binary],
    };
    assert_eq!(
        protocol.on_request(request, &mut backend, &mut channel).unwrap(),
        Response::Message(BindComplete)
    );
    assert_eq!(
        *protocol.portals.get("portal1").unwrap(),
        PortalData {
            prepared_statement_id: 0,
            prepared_statement_name: "prepared1".to_string(),
            params: vec![DataValue::Double(0.8887), DataValue::Int(45678)],
            // The single transfer format is applied to both fields.
            result_transfer_formats: Arc::new(vec![
                TransferFormat::Binary,
                TransferFormat::Binary
            ])
        }
    );
}

#[test]
fn bind_invalid_result_transfer_formats() {
    let mut protocol: Protocol<DataValue> = Protocol::new();
    let mut backend = Backend::new();
    let mut channel = Channel::new();

    let startup_request = FrontendMessage::StartupMessage {
        protocol_version: 12345,
        user: Some("user_name".to_string()),
        database: Some("database_name".to_string()),
    };
    protocol.on_request(startup_request, &mut backend, &mut channel).unwrap();

    let parse_request = FrontendMessage::Parse {
        prepared_statement_name: "prepared1".to_string(),
        query: "SELECT * FROM test WHERE x = $1 AND y = $2;".to_string(),
        parameter_data_types: vec![],
    };
    protocol.on_request(parse_request, &mut backend, &mut channel).unwrap();

    // An unsupported number of data transfer formats triggers an error.
    let request = FrontendMessage::Bind {
        prepared_statement_name: "prepared1".to_string(),
        portal_name: "portal1".to_string(),
        params: vec![DataValue::Double(0.8887), DataValue::Int(45678)],
        result_transfer_formats: vec![
            TransferFormat::Binary,
            TransferFormat::Binary,
            TransferFormat::Binary,
        ],
    };
    protocol.on_request(request, &mut backend, &mut channel).unwrap_err();
}

#[test]
fn bind_missing_prepared_statement() {
    let mut protocol: Protocol<DataValue> = Protocol::new();
    let mut backend = Backend::new();
    let mut channel = Channel::new();

    let startup_request = FrontendMessage::StartupMessage {
        protocol_version: 12345,
        user: Some("user_name".to_string()),
        database: Some("database_name".to_string()),
    };
    protocol.on_request(startup_request, &mut backend, &mut channel).unwrap();

    let parse_request = FrontendMessage::Parse {
        prepared_statement_name: "prepared1".to_string(),
        query: "SELECT * FROM test WHERE x = $1 AND y = $2;".to_string(),
        parameter_data_types: vec![],
    };
    protocol.on_request(parse_request, &mut backend, &mut channel).unwrap();

    // An attempt to bind a prepared statement that does not exist triggers an error.
    let request = FrontendMessage::Bind {
        prepared_statement_name: "prepared_invalid name".to_string(),
        portal_name: "portal1".to_string(),
        params: vec![DataValue::Double(0.8887), DataValue::Int(45678)],
        result_transfer_formats: vec![],
    };
    protocol.on_request(request, &mut backend, &mut channel).unwrap_err();
}

#[test]
fn close_prepared_statement() {
    let mut protocol: Protocol<DataValue> = Protocol::new();
    let mut backend = Backend::new();
    let mut channel = Channel::new();

    let startup_request = FrontendMessage::StartupMessage {
        protocol_version: 12345,
        user: Some("user_name".to_string()),
        database: Some("database_name".to_string()),
    };
    protocol.on_request(startup_request, &mut backend, &mut channel).unwrap();

    let parse_request = FrontendMessage::Parse {
        prepared_statement_name: "prepared1".to_string(),
        query: "SELECT * FROM test WHERE x = $1 AND y = $2;".to_string(),
        parameter_data_types: vec![],
    };
    protocol.on_request(parse_request, &mut backend, &mut channel).unwrap();
    assert!(protocol.prepared_statements.get("prepared1").is_some());

    // A prepared statement close request calls close on the backend and removes Protocol state
    // for the prepared statement.
    let request = FrontendMessage::Close {
        name: PreparedStatement("prepared1".to_string()),
    };
    assert_eq!(
        protocol.on_request(request, &mut backend, &mut channel).unwrap(),
        Response::Message(CloseComplete)
    );
    assert_eq!(backend.last_close.unwrap(), 0);
    assert!(protocol.prepared_statements.get("prepared1").is_none());
}

#[test]
fn close_missing_prepared_statement() {
    let mut protocol: Protocol<DataValue> = Protocol::new();
    let mut backend = Backend::new();
    let mut channel = Channel::new();

    let startup_request = FrontendMessage::StartupMessage {
        protocol_version: 12345,
        user: Some("user_name".to_string()),
        database: Some("database_name".to_string()),
    };
    protocol.on_request(startup_request, &mut backend, &mut channel).unwrap();

    // An attempt to close a missing prepared statement triggers a normal response (no error).
    let request = FrontendMessage::Close {
        name: PreparedStatement("prepared1".to_string()),
    };
    assert_eq!(
        protocol.on_request(request, &mut backend, &mut channel).unwrap(),
        Response::Message(CloseComplete)
    );
}

#[test]
fn close_portal() {
    let mut protocol: Protocol<DataValue> = Protocol::new();
    let mut backend = Backend::new();
    let mut channel = Channel::new();

    let startup_request = FrontendMessage::StartupMessage {
        protocol_version: 12345,
        user: Some("user_name".to_string()),
        database: Some("database_name".to_string()),
    };
    protocol.on_request(startup_request, &mut backend, &mut channel).unwrap();

    let parse_request = FrontendMessage::Parse {
        prepared_statement_name: "prepared1".to_string(),
        query: "SELECT * FROM test WHERE x = $1 AND y = $2;".to_string(),
        parameter_data_types: vec![],
    };
    protocol.on_request(parse_request, &mut backend, &mut channel).unwrap();

    let bind_request = FrontendMessage::Bind {
        prepared_statement_name: "prepared1".to_string(),
        portal_name: "portal1".to_string(),
        params: vec![DataValue::Double(0.8887), DataValue::Int(45678)],
        result_transfer_formats: vec![TransferFormat::Text, TransferFormat::Binary],
    };
    assert_eq!(
        protocol.on_request(bind_request, &mut backend, &mut channel).unwrap(),
        Response::Message(BindComplete)
    );
    assert!(protocol.portals.get("portal1").is_some());

    // A portal close request removes Protocol state for the portal.
    let request = FrontendMessage::Close {
        name: Portal("portal1".to_string()),
    };
    assert_eq!(
        protocol.on_request(request, &mut backend, &mut channel).unwrap(),
        Response::Message(CloseComplete)
    );
    assert!(protocol.portals.get("protal1").is_none());
}

#[test]
fn close_missing_portal() {
    let mut protocol: Protocol<DataValue> = Protocol::new();
    let mut backend = Backend::new();
    let mut channel = Channel::new();

    let startup_request = FrontendMessage::StartupMessage {
        protocol_version: 12345,
        user: Some("user_name".to_string()),
        database: Some("database_name".to_string()),
    };
    protocol.on_request(startup_request, &mut backend, &mut channel).unwrap();

    // An attempt to close a missing portal triggers a normal response (no error).
    let request = FrontendMessage::Close {
        name: Portal("portal1".to_string()),
    };
    assert_eq!(
        protocol.on_request(request, &mut backend, &mut channel).unwrap(),
        Response::Message(CloseComplete)
    );
}

#[test]
fn describe_prepared_statement() {
    let mut protocol: Protocol<DataValue> = Protocol::new();
    let mut backend = Backend::new();
    let mut channel = Channel::new();

    let startup_request = FrontendMessage::StartupMessage {
        protocol_version: 12345,
        user: Some("user_name".to_string()),
        database: Some("database_name".to_string()),
    };
    protocol.on_request(startup_request, &mut backend, &mut channel).unwrap();

    let parse_request = FrontendMessage::Parse {
        prepared_statement_name: "prepared1".to_string(),
        query: "SELECT * FROM test WHERE x = $1 AND y = $2;".to_string(),
        parameter_data_types: vec![],
    };
    protocol.on_request(parse_request, &mut backend, &mut channel).unwrap();
    assert!(protocol.prepared_statements.get("prepared1").is_some());

    // A prepared statement describe request generates a suitable description.
    let request = FrontendMessage::Describe {
        name: PreparedStatement("prepared1".to_string()),
    };
    assert_eq!(
        protocol.on_request(request, &mut backend, &mut channel).unwrap(),
        Response::Messages(MessageList::from_vec(vec![
            ParameterDescription {
                parameter_data_types: vec![Type::simple(oid::FLOAT8), Type::simple(oid::INT4)]
            },
            RowDescription {
                field_descriptions: vec![
                    FieldDescription {
                        field_name: "col1".to_string(),
                        table_id: UNKNOWN_TABLE,
                        col_id: UNKNOWN_COLUMN,
                        data_type: Type::simple(oid::INT4),
                        data_type_size: TYPLEN_4,
                        type_modifier: ATTTYPMOD_NONE,
                        transfer_format: TransferFormat::Text
                    },
                    FieldDescription {
                        field_name: "col2".to_string(),
                        table_id: UNKNOWN_TABLE,
                        col_id: UNKNOWN_COLUMN,
                        data_type: Type::simple(oid::FLOAT8),
                        data_type_size: TYPLEN_8,
                        type_modifier: ATTTYPMOD_NONE,
                        transfer_format: TransferFormat::Text
                    },
                ],
            }
        ]))
    );
}

#[test]
fn describe_missing_prepared_statement() {
    let mut protocol: Protocol<DataValue> = Protocol::new();
    let mut backend = Backend::new();
    let mut channel = Channel::new();

    let startup_request = FrontendMessage::StartupMessage {
        protocol_version: 12345,
        user: Some("user_name".to_string()),
        database: Some("database_name".to_string()),
    };
    protocol.on_request(startup_request, &mut backend, &mut channel).unwrap();

    // An attempt to describe a missing prepared statement triggers an error.
    let request = FrontendMessage::Describe {
        name: PreparedStatement("prepared_name_does_not_exist".to_string()),
    };
    protocol.on_request(request, &mut backend, &mut channel).unwrap_err();
}

#[test]
fn describe_portal() {
    let mut protocol: Protocol<DataValue> = Protocol::new();
    let mut backend = Backend::new();
    let mut channel = Channel::new();

    let startup_request = FrontendMessage::StartupMessage {
        protocol_version: 12345,
        user: Some("user_name".to_string()),
        database: Some("database_name".to_string()),
    };
    protocol.on_request(startup_request, &mut backend, &mut channel).unwrap();

    let parse_request = FrontendMessage::Parse {
        prepared_statement_name: "prepared1".to_string(),
        query: "SELECT * FROM test WHERE x = $1 AND y = $2;".to_string(),
        parameter_data_types: vec![],
    };
    protocol.on_request(parse_request, &mut backend, &mut channel).unwrap();
    assert!(protocol.prepared_statements.get("prepared1").is_some());

    let bind_request = FrontendMessage::Bind {
        prepared_statement_name: "prepared1".to_string(),
        portal_name: "portal1".to_string(),
        params: vec![DataValue::Double(0.8887), DataValue::Int(45678)],
        result_transfer_formats: vec![TransferFormat::Text, TransferFormat::Binary],
    };
    assert_eq!(
        protocol.on_request(bind_request, &mut backend, &mut channel).unwrap(),
        Response::Message(BindComplete)
    );

    // A portal describe request generates a suitable description.
    let request = FrontendMessage::Describe {
        name: Portal("portal1".to_string()),
    };
    assert_eq!(
        protocol.on_request(request, &mut backend, &mut channel).unwrap(),
        Response::Message(RowDescription {
            field_descriptions: vec![
                FieldDescription {
                    field_name: "col1".to_string(),
                    table_id: UNKNOWN_TABLE,
                    col_id: UNKNOWN_COLUMN,
                    data_type: Type::simple(oid::INT4),
                    data_type_size: TYPLEN_4,
                    type_modifier: ATTTYPMOD_NONE,
                    transfer_format: TransferFormat::Text
                },
                FieldDescription {
                    field_name: "col2".to_string(),
                    table_id: UNKNOWN_TABLE,
                    col_id: UNKNOWN_COLUMN,
                    data_type: Type::simple(oid::FLOAT8),
                    data_type_size: TYPLEN_8,
                    type_modifier: ATTTYPMOD_NONE,
                    transfer_format: TransferFormat::Binary
                },
            ],
        })
    );
}

#[test]
fn describe_missing_portal() {
    let mut protocol: Protocol<DataValue> = Protocol::new();
    let mut backend = Backend::new();
    let mut channel = Channel::new();

    let startup_request = FrontendMessage::StartupMessage {
        protocol_version: 12345,
        user: Some("user_name".to_string()),
        database: Some("database_name".to_string()),
    };
    protocol.on_request(startup_request, &mut backend, &mut channel).unwrap();

    // An attempt to describe a missing portal triggers an error.
    let request = FrontendMessage::Describe {
        name: Portal("portal_name_does_not_exist".to_string()),
    };
    protocol.on_request(request, &mut backend, &mut channel).unwrap_err();
}

#[test]
fn execute_read() {
    let mut protocol: Protocol<DataValue> = Protocol::new();
    let mut backend = Backend::new();
    let mut channel = Channel::new();

    let startup_request = FrontendMessage::StartupMessage {
        protocol_version: 12345,
        user: Some("user_name".to_string()),
        database: Some("database_name".to_string()),
    };
    protocol.on_request(startup_request, &mut backend, &mut channel).unwrap();

    let parse_request = FrontendMessage::Parse {
        prepared_statement_name: "prepared1".to_string(),
        query: "SELECT * FROM test WHERE x = $1 AND y = $2;".to_string(),
        parameter_data_types: vec![],
    };
    protocol.on_request(parse_request, &mut backend, &mut channel).unwrap();
    assert!(protocol.prepared_statements.get("prepared1").is_some());

    let bind_request = FrontendMessage::Bind {
        prepared_statement_name: "prepared1".to_string(),
        portal_name: "portal1".to_string(),
        params: vec![DataValue::Double(0.8887), DataValue::Int(45678)],
        result_transfer_formats: vec![TransferFormat::Text, TransferFormat::Binary],
    };
    assert_eq!(
        protocol.on_request(bind_request, &mut backend, &mut channel).unwrap(),
        Response::Message(BindComplete)
    );

    // A portal execute request returns the correct results from the backend.
    let request = FrontendMessage::Execute {
        portal_name: "portal1".to_string(),
        limit: 0,
    };
    assert_eq!(
        protocol.on_request(request, &mut backend, &mut channel).unwrap(),
        Response::Select {
            header: None,
            resultset: vec![
                vec![Value(DataValue::Int(88)), Value(DataValue::Double(0.123))],
                vec![Value(DataValue::Int(22)), Value(DataValue::Double(0.456))]
            ],
            result_transfer_formats: Some(Arc::new(vec![
                TransferFormat::Text,
                TransferFormat::Binary
            ])),
            trailer: None
        }
    );
    assert_eq!(backend.last_execute_id.unwrap(), 0);
    assert_eq!(
        backend.last_execute_params.unwrap(),
        vec![DataValue::Double(0.8887), DataValue::Int(45678)]
    );
}

#[test]
fn execute_error() {
    let mut protocol: Protocol<DataValue> = Protocol::new();
    let mut backend = Backend::new();
    backend.is_query_err = true;
    let mut channel = Channel::new();

    let startup_request = FrontendMessage::StartupMessage {
        protocol_version: 12345,
        user: Some("user_name".to_string()),
        database: Some("database_name".to_string()),
    };
    protocol.on_request(startup_request, &mut backend, &mut channel).unwrap();

    let parse_request = FrontendMessage::Parse {
        prepared_statement_name: "prepared1".to_string(),
        query: "SELECT * FROM test WHERE x = $1 AND y = $2;".to_string(),
        parameter_data_types: vec![],
    };
    protocol.on_request(parse_request, &mut backend, &mut channel).unwrap();
    assert!(protocol.prepared_statements.get("prepared1").is_some());

    let bind_request = FrontendMessage::Bind {
        prepared_statement_name: "prepared1".to_string(),
        portal_name: "portal1".to_string(),
        params: vec![DataValue::Double(0.8887), DataValue::Int(45678)],
        result_transfer_formats: vec![TransferFormat::Text, TransferFormat::Binary],
    };
    assert_eq!(
        protocol.on_request(bind_request, &mut backend, &mut channel).unwrap(),
        Response::Message(BindComplete)
    );

    // An `Error` is returned when the backend returns an error.
    let request = FrontendMessage::Execute {
        portal_name: "portal1".to_string(),
        limit: 0,
    };
    protocol.on_request(request, &mut backend, &mut channel).unwrap_err();
}

#[test]
fn execute_write() {
    let mut protocol: Protocol<DataValue> = Protocol::new();
    let mut backend = Backend::new();
    backend.is_query_read = false;
    let mut channel = Channel::new();

    let startup_request = FrontendMessage::StartupMessage {
        protocol_version: 12345,
        user: Some("user_name".to_string()),
        database: Some("database_name".to_string()),
    };
    protocol.on_request(startup_request, &mut backend, &mut channel).unwrap();

    let parse_request = FrontendMessage::Parse {
        prepared_statement_name: "prepared1".to_string(),
        query: "SELECT * FROM test WHERE x = $1 AND y = $2;".to_string(),
        parameter_data_types: vec![],
    };
    protocol.on_request(parse_request, &mut backend, &mut channel).unwrap();
    assert!(protocol.prepared_statements.get("prepared1").is_some());

    let bind_request = FrontendMessage::Bind {
        prepared_statement_name: "prepared1".to_string(),
        portal_name: "portal1".to_string(),
        params: vec![DataValue::Double(0.8887), DataValue::Int(45678)],
        result_transfer_formats: vec![TransferFormat::Text, TransferFormat::Binary],
    };
    assert_eq!(
        protocol.on_request(bind_request, &mut backend, &mut channel).unwrap(),
        Response::Message(BindComplete)
    );

    // A write portal is passed to the backend correctly and a suitable result is returned.
    let request = FrontendMessage::Execute {
        portal_name: "portal1".to_string(),
        limit: 0,
    };
    assert_eq!(
        protocol.on_request(request, &mut backend, &mut channel).unwrap(),
        Response::Message(CommandComplete {
            tag: CommandCompleteTag::Delete(5)
        })
    );
    assert_eq!(backend.last_execute_id.unwrap(), 0);
    assert_eq!(
        backend.last_execute_params.unwrap(),
        vec![DataValue::Double(0.8887), DataValue::Int(45678)]
    );
}

#[test]
fn on_error_starting_up() {
    let mut protocol: Protocol<DataValue> = Protocol::new();
    assert_eq!(
        protocol.on_error::<Backend>(Error::InternalError("error requested".to_string()))
        .unwrap(),
        Response::Message(ErrorResponse {
            severity: ErrorSeverity::Error,
            sqlstate: SqlState::from_code(sqlstate::INTERNAL_ERROR),
            message: "internal error: error requested".to_string()
        })
    );
}

#[test]
fn on_error_after_starting_up() {
    let mut protocol: Protocol<DataValue> = Protocol::new();
    protocol.state = State::Ready;
    assert_eq!(
        protocol.on_error::<Backend>(Error::InternalError("error requested".to_string()))
        .unwrap(),
        Response::Messages(MessageList::from_vec(vec![
            ErrorResponse {
                severity: ErrorSeverity::Error,
                sqlstate: SqlState::from_code(sqlstate::INTERNAL_ERROR),
                message: "internal error: error requested".to_string()
            },
            BackendMessage::ready_for_query_idle()
        ]))
    );
}

#[test]
fn on_error_in_extended() {
    let mut protocol: Protocol<DataValue> = Protocol::new();
    protocol.state = State::Extended;
    assert_eq!(
        protocol.on_error::<Backend>(Error::InternalError("error requested".to_string()))
        .unwrap(),
        Response::Message(ErrorResponse {
            severity: ErrorSeverity::Error,
            sqlstate: SqlState::from_code(sqlstate::INTERNAL_ERROR),
            message: "internal error: error requested".to_string()
        })
    );
    assert_eq!(protocol.state, State::Error);
}
