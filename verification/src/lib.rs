//! The decision core of a fixed-size worker pool.
//!
//! A pool owns a fixed number of workers and one first-in, first-out channel
//! of messages. Everything that a pool or a worker decides is here, as
//! sequential functions on plain state: which message a worker gets, what it
//! does with it, what shutdown puts on the channel, and when shutdown is
//! over. The threads, the lock around the state and the waiting are the
//! caller's; the caller runs each job that is handed out and reports back
//! when it has returned.

pub mod census;
pub mod guarantees;
pub mod model;
pub mod pool;
pub mod responder;
pub mod worker;

pub use crate::pool::ThreadPool;
pub use crate::worker::{Action, Message, Received, Worker, WorkerState};
