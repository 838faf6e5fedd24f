//! Presence and room coordination for a small multi-user chat service.
//!
//! The crate is the decision-making core of the service: who is online, who
//! sits in which live room, what must be asked of durable storage, and which
//! envelopes go to which connection. It performs no input or output itself.
//! A host program owns the sockets and the database, feeds events in, and
//! carries out what the core hands back.
//!
//! - [`presence`] and [`rooms`] hold the two structures that connections
//!   share, and [`state`] bundles them with the shutdown signal.
//! - [`protocol`] names the envelopes that go in and out.
//! - [`session`] takes one connection from its handshake to its end, and
//!   [`handler`] decides what each request of an authenticated client leads to.
//! - [`storage`] is the interface to the database as data, [`db`] holds the
//!   operations on it as scripts of single calls, and [`sql`] puts each call
//!   to an SQL database and reads what comes back.
//! - [`ledger`] states, against a model of the database, what the
//!   friendship and room operations achieve.
//! - [`credentials`] checks passwords and mints session tokens.

pub mod credentials;
pub mod db;
pub mod handler;
pub mod ledger;
pub mod presence;
pub mod protocol;
pub mod records;
pub mod rooms;
pub mod session;
pub mod sql;
pub mod state;
pub mod storage;
pub mod text;
