//! What to do when `accept` fails.
//!
//! A client that gave up during the handshake is no reason to stop, and a
//! full descriptor table empties again; anything else is not expected to
//! heal by itself.

use vstd::prelude::*;

verus! {

/// How long the listener rests when the descriptor table is full.
pub const BACKOFF_MILLIS: u64 = 500;

/// What an I/O error of `accept` tells the listener.
#[derive(Clone, Copy, Debug, PartialEq, Eq)]
pub struct AcceptFailure {
    /// The error's kind is "connection aborted".
    pub aborted: bool,
    /// The error number of the operating system, where the error has one.
    pub os_code: Option<i32>,
}

/// The error numbers by which this platform reports a full descriptor table.
#[derive(Clone, Copy, Debug, PartialEq, Eq)]
pub struct ExhaustionCodes {
    /// The calling process has too many descriptors open.
    pub per_process: i32,
    /// The whole system has too many files open.
    pub system_wide: i32,
}

/// The listener's answer to a failed `accept`.
#[derive(Clone, Copy, Debug, PartialEq, Eq, Structural)]
pub enum Recovery {
    /// Accept again at once, and say nothing.
    Retry,
    /// Rest for [`BACKOFF_MILLIS`], then accept again.
    Backoff,
    /// Give the error to the caller: the server ends.
    Propagate,
}

/// The failure carries one of the two error numbers of `codes`.
pub open spec fn exhausted(failure: AcceptFailure, codes: ExhaustionCodes) -> bool {
    failure.os_code == Some(codes.per_process) || failure.os_code == Some(codes.system_wide)
}

/// The rule: an aborted connection is retried whatever its error number,
/// a full descriptor table is waited out, and nothing else is recovered.
pub open spec fn recovery_of(failure: AcceptFailure, codes: ExhaustionCodes) -> Recovery {
    if failure.aborted {
        Recovery::Retry
    } else if exhausted(failure, codes) {
        Recovery::Backoff
    } else {
        Recovery::Propagate
    }
}

/// Reads the constant `libc::EMFILE`. Its value differs from one target to
/// the next, so nothing is claimed of it.
#[verifier::external_body]
fn per_process_code() -> (code: i32) {
    libc::EMFILE
}

/// Reads the constant `libc::ENFILE`. Its value differs from one target to
/// the next, so nothing is claimed of it.
#[verifier::external_body]
fn system_wide_code() -> (code: i32) {
    libc::ENFILE
}

impl ExhaustionCodes {
    /// The two error numbers of the platform that the crate was built for.
    pub fn native() -> (codes: ExhaustionCodes) {
        ExhaustionCodes { per_process: per_process_code(), system_wide: system_wide_code() }
    }
}

/// Classifies a failed `accept` against the given error numbers.
pub fn classify_with(failure: AcceptFailure, codes: ExhaustionCodes) -> (recovery: Recovery)
    ensures
        recovery == recovery_of(failure, codes),
{
    if failure.aborted {
        return Recovery::Retry;
    }
    match failure.os_code {
        Some(code) => {
            if code == codes.per_process || code == codes.system_wide {
                Recovery::Backoff
            } else {
                Recovery::Propagate
            }
        },
        None => Recovery::Propagate,
    }
}

/// Classifies a failed `accept` on this platform. Which numbers mean a full
/// descriptor table is the platform's affair; the rule is the same for all.
pub fn classify(failure: AcceptFailure) -> (recovery: Recovery)
    ensures
        exists|codes: ExhaustionCodes| recovery == recovery_of(failure, codes),
        failure.aborted ==> recovery == Recovery::Retry,
        !failure.aborted ==> recovery != Recovery::Retry,
        !failure.aborted && failure.os_code.is_none() ==> recovery == Recovery::Propagate,
{
    classify_with(failure, ExhaustionCodes::native())
}

} // verus!
