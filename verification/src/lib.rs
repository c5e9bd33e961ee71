//! Resilient export of telemetry log records over a remote-procedure-call
//! channel.
//!
//! The core of the library is the retry layer: a classifier that decides
//! whether a failed call may be tried again, an exponential backoff schedule
//! with bounded jitter, and a bounded retry executor. The surrounding
//! plumbing (channel setup, wire encoding, the asynchronous export loop)
//! lives outside the verified library and drives it through the decision
//! functions exported here.

pub mod error;
pub mod retry;
