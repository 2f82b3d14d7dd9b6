//! A verified client core for an asynchronous image-generation service.
//!
//! The library holds the protocol logic: building the task-creation request,
//! deciding when polling is finished, pacing outbound calls through a rate
//! limiter, bounding retries by an elapsed-time budget, and naming the files
//! that decoded images are written to. The HTTP transport and the filesystem
//! sit outside, in an unverified shell that drives these decisions.

pub mod client;
pub mod limiter;
pub mod persist;
pub mod protocol;
pub mod request;
pub mod retry;
pub mod text;
pub mod types;
