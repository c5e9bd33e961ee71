//! Terminal failure of one logical export operation.

use vstd::prelude::*;

use crate::retry::StatusCode;

verus! {

/// The terminal failure of one export operation. An operation either fails
/// at once on a non-retryable status, or exhausts its retry budget and
/// surfaces the last retryable status it observed.
#[derive(Clone, Copy, Debug, PartialEq, Eq, Structural)]
pub enum Error {
    /// The first attempt that failed with a non-retryable status ended the
    /// operation; the status is carried for diagnostics.
    NonRetryable(StatusCode),
    /// Every allowed attempt failed with a retryable status; the status of
    /// the last attempt is carried for diagnostics.
    RetriesExhausted(StatusCode),
}

} // verus!
