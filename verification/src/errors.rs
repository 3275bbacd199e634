//! Errors surfaced by a monitoring session.

use vstd::prelude::*;

verus! {

/// The ways a monitoring session can fail.
///
/// A malformed streamed chunk is not an error of the session: it is recovered
/// locally (the chunk's text is skipped) and the session continues. An invalid
/// configuration override likewise never fails the session: it falls back to
/// the default value of the field it would have set.
#[derive(Clone, Copy, Debug, PartialEq, Eq, Structural)]
pub enum MonitorError {
    /// Energy accounting was asked for on an empty reading sequence.
    EmptySample,
    /// The streaming transport reported a non-success initial status, or
    /// failed mid-stream before a clean end-of-stream.
    Transport,
}

} // verus!
