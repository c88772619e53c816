//! The retry policy of the stream transport.
//!
//! The transport drives the handshake over a connection-oriented byte stream
//! and then frames messages over it. The stream work itself (connecting,
//! reading and writing bytes, pausing between attempts) cannot stand here;
//! what stands here is the policy it must follow: how many attempts a read
//! or write gets, and which failures end the attempt loop at once.

use vstd::prelude::*;

use crate::error::NoiseError;

verus! {

/// How many attempts a whole read or write gets before its last error is
/// surfaced.
pub const MAX_IO_ATTEMPTS: usize = 5;
/// Seconds to pause between two attempts of a read or write.
pub const IO_RETRY_PAUSE_SECS: u64 = 1;
/// Seconds a connection attempt may take before it is abandoned.
pub const CONNECT_TIMEOUT_SECS: u64 = 10;

/// What kind of failure the raw stream reported, as the policy reads it.
#[derive(Clone, Copy, Debug, PartialEq, Eq, Structural)]
pub enum StreamErrorKind {
    /// The stream ended cleanly: the connection is gone and a retry cannot
    /// bring it back.
    UnexpectedEof,
    /// The operation was explicitly interrupted.
    Interrupted,
    /// Any other stream failure; no bytes were consumed, so the operation
    /// may be attempted again.
    Other,
}

/// Why one whole read attempt (header, body and their decryption) failed.
#[derive(Clone, Copy, Debug, PartialEq, Eq, Structural)]
pub enum ReadFailure {
    /// The raw stream failed while reading.
    Stream(StreamErrorKind),
    /// A header or body failed to decrypt.
    Noise(NoiseError),
}

/// A stream failure that retrying cannot recover: a clean end of stream or
/// an explicit interruption.
pub open spec fn stream_error_is_fatal(k: StreamErrorKind) -> bool {
    k is UnexpectedEof || k is Interrupted
}

/// Whether a failed read attempt should be retried after a pause.
///
/// `attempts_made` counts the attempts already made, the failed one
/// included. Fatal stream conditions short-circuit the loop, and a
/// decryption failure is never retried: retrying cannot fix a corrupted
/// message.
pub fn should_retry_read(failure: &ReadFailure, attempts_made: usize) -> (r: bool)
    ensures
        r <==> attempts_made < MAX_IO_ATTEMPTS
            && (failure matches ReadFailure::Stream(k) && !stream_error_is_fatal(*k)),
{
    if attempts_made >= MAX_IO_ATTEMPTS {
        return false;
    }
    match failure {
        ReadFailure::Stream(k) => match k {
            StreamErrorKind::UnexpectedEof => false,
            StreamErrorKind::Interrupted => false,
            StreamErrorKind::Other => true,
        },
        ReadFailure::Noise(_) => false,
    }
}

/// Whether a failed write of a whole encrypted message should be retried
/// after a pause.
///
/// `attempts_made` counts the attempts already made, the failed one
/// included. Encryption happens once, before the attempt loop, so only
/// stream failures reach this decision; each gets another attempt until
/// the budget is spent.
pub fn should_retry_write(attempts_made: usize) -> (r: bool)
    ensures
        r <==> attempts_made < MAX_IO_ATTEMPTS,
{
    attempts_made < MAX_IO_ATTEMPTS
}

} // verus!
