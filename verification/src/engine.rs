//! An engine together with the record of what it was asked.

use vstd::prelude::*;
use crate::backend::{Backend, Credentials, CredentialsNeeded, PrepareResponse, QueryResponse};
use crate::error::Error;
use crate::model::EngineCall;

verus! {

/// An engine, and the calls that were made on it through this value, oldest
/// first.
///
/// The engine is reached through the methods of this type and in no other
/// way, and each of them makes one call and adds that call, with the
/// arguments it was made with, to the record. That the record is what the
/// engine was asked therefore rests on the bodies of these methods, each of
/// which is the call and the entry; the verifier knows nothing of what a call
/// on the engine does. What the engine answers is not recorded.
pub struct Recorded<'a, B: Backend> {
    backend: &'a mut B,
    log: Ghost<Seq<EngineCall<B::Value>>>,
}

impl<'a, B: Backend> Recorded<'a, B> {
    /// The calls made so far.
    pub closed spec fn log(&self) -> Seq<EngineCall<B::Value>> {
        self.log@
    }

    /// The engine, with nothing asked of it yet.
    pub fn new(backend: &'a mut B) -> (engine: Recorded<'a, B>)
        ensures
            engine.log() == Seq::<EngineCall<B::Value>>::empty(),
    {
        Recorded { backend, log: Ghost(Seq::empty()) }
    }

    /// The engine, with the calls that a session has made on it before.
    pub(crate) fn resume(backend: &'a mut B, log: Ghost<Seq<EngineCall<B::Value>>>) -> (engine:
        Recorded<'a, B>)
        ensures
            engine.log() == log@,
    {
        Recorded { backend, log }
    }

    /// Opens the named database.
    pub fn on_init(&mut self, database: &str) -> (answer: Result<CredentialsNeeded, Error>)
        ensures
            final(self).log() == old(self).log().push(EngineCall::Init { database: database@ }),
    {
        proof {
            self.log@ = self.log@.push(EngineCall::Init { database: database@ });
        }
        self.backend.on_init(database)
    }

    /// Checks the password that the client sent for the user.
    pub fn on_auth(&mut self, user: String, password: String) -> (answer: Result<(), Error>)
        ensures
            final(self).log() == old(self).log().push(
                EngineCall::Auth { user: user@, password: password@ },
            ),
    {
        proof {
            self.log@ = self.log@.push(EngineCall::Auth { user: user@, password: password@ });
        }
        self.backend.on_auth(Credentials::Cleartext { user, password })
    }

    /// Runs a query given as text.
    pub fn on_query(&mut self, query: &str) -> (answer: Result<QueryResponse<B::Resultset>, Error>)
        ensures
            final(self).log() == old(self).log().push(EngineCall::Query { query: query@ }),
    {
        proof {
            self.log@ = self.log@.push(EngineCall::Query { query: query@ });
        }
        self.backend.on_query(query)
    }

    /// Prepares a statement.
    pub fn on_prepare(&mut self, query: &str) -> (answer: Result<PrepareResponse, Error>)
        ensures
            final(self).log() == old(self).log().push(EngineCall::Prepare { query: query@ }),
    {
        proof {
            self.log@ = self.log@.push(EngineCall::Prepare { query: query@ });
        }
        self.backend.on_prepare(query)
    }

    /// Runs a prepared statement with the given parameter values.
    pub fn on_execute(&mut self, statement_id: u32, params: &Vec<B::Value>) -> (answer: Result<
        QueryResponse<B::Resultset>,
        Error,
    >)
        ensures
            final(self).log() == old(self).log().push(
                EngineCall::Execute { statement_id, params: params@ },
            ),
    {
        proof {
            self.log@ = self.log@.push(EngineCall::Execute { statement_id, params: params@ });
        }
        self.backend.on_execute(statement_id, params.as_slice())
    }

    /// Lets go of a prepared statement.
    pub fn on_close(&mut self, statement_id: u32) -> (answer: Result<(), Error>)
        ensures
            final(self).log() == old(self).log().push(EngineCall::Close { statement_id }),
    {
        proof {
            self.log@ = self.log@.push(EngineCall::Close { statement_id });
        }
        self.backend.on_close(statement_id)
    }

    /// The version that the engine announces. Asking for it is no call that
    /// is recorded.
    pub fn version(&self) -> String {
        self.backend.version()
    }
}

} // verus!
