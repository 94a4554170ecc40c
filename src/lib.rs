//! Core of a traffic and key/value-storage monitor: clients push observed
//! events over a socket, the server deduplicates and records them, keeps a
//! last-value projection of the client's store, and relays commands back.

mod table;
pub mod model;
pub mod signature;
pub mod projection;
pub mod dedup;
pub mod log;
pub mod ingest;
pub mod codec;
pub mod command;
pub mod connection;
pub mod bus;
