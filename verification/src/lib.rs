//! A record stream: a sequential log that a producer feeds and a single
//! consumer drains in bounded batches, by polling a batch and then committing it.
//!
//! The consumer polls a batch, which stays in the stream and is handed out
//! again at every poll until the consumer commits it; the commit removes it
//! and nothing else, whatever was produced in the meantime.
//! Delivery is newest first: a record is handed out before all that was
//! produced before it and is still queued.
//!
//! * [`state`] holds the mathematical model of a stream.
//! * [`protocol`] holds what the model guarantees, with proofs.
//! * [`stream`] holds the interface that every backend implements.
//! * [`inmem`] holds the in-memory backend.
//! * [`error`] holds the failures that a backend may report.

pub mod error;
pub mod inmem;
pub mod protocol;
pub mod state;
pub mod stream;

pub use error::RecordStreamError;
pub use inmem::InMemRecordStream;
pub use state::{StreamState, MAX_POLL_SIZE};
pub use stream::RecordStream;
