//! Bookkeeping around the graph database: the connection state machine, the
//! errors it reports, the request values handed to the database worker, and
//! the message queue that carries them.

pub mod client;
pub mod errors;
pub mod message_queue;
pub mod new_message_queue;
pub mod request;
pub mod indradb_backend;
pub mod new_indradb;
