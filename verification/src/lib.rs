//! The backend side of the PostgreSQL frontend/backend protocol: a session
//! takes the decoded requests of one connection, asks an engine to do what
//! they ask for, and says which messages to answer with.

pub mod backend;
pub mod catalog;
pub mod channel;
pub mod describe;
pub mod engine;
pub mod error;
pub mod laws;
pub mod message;
pub mod model;
pub mod oid;
pub mod passthrough;
pub mod pgtype;
pub mod protocol;
pub mod response;
pub mod row;
pub mod sqlstate;
pub mod text;
pub mod typlen;

pub use crate::backend::Backend;
pub use crate::channel::Channel;
pub use crate::engine::Recorded;
pub use crate::error::{make_error_response, Error};
pub use crate::protocol::Protocol;
pub use crate::response::Response;
pub use crate::row::{Row, RowIterator};
