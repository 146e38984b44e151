//! Classifying host I/O results into polling outcomes.
//!
//! A host-style I/O result distinguishes success from failure, and among
//! failures the host marks some as "the operation would merely block".
//! Classification turns that into the three-outcome shape: success is
//! ready now, a would-block failure is the retry signal, and every other
//! failure is terminal with the error carried through unchanged.
//!
//! The host resource must already be in non-blocking mode; nothing here
//! can detect a violation of that caller obligation, and a blocking
//! resource may stall the whole process before any outcome is produced.

use crate::outcome::PollOutcome;
use vstd::prelude::*;

verus! {

/// The host's I/O error type, declared so classified outcomes can carry
/// such an error through unchanged.
#[verifier::external_type_specification]
#[verifier::external_body]
pub struct ExIoError(std::io::Error);

/// Whether the host marked this error's kind "operation would block".
/// A name for what the trusted kind test below returns: its result
/// depends on the error value alone.
pub uninterp spec fn would_block_kind(e: std::io::Error) -> bool;

/// Relies on std::io::Error::kind: tells whether this error's kind is
/// the host's "operation would block" category. The result is a pure
/// accessor of the error value, named [`would_block_kind`].
#[verifier::external_body]
fn error_kind_would_block(error: &std::io::Error) -> (r: bool)
    ensures
        r == would_block_kind(*error),
{
    matches!(error.kind(), std::io::ErrorKind::WouldBlock)
}

/// Builds the outcome a host result classifies into, once its failure
/// (if any) has been judged retryable or not: success is ready now, a
/// failure that only means "would block" becomes the retry signal (the
/// error value is discarded), and any other failure is terminal and
/// keeps the error unchanged.
pub fn classify_host<T, E>(result: Result<T, E>, failure_would_block: bool) -> (out: PollOutcome<
    T,
    E,
>)
    ensures
        result matches Ok(v) ==> out == PollOutcome::<T, E>::Ready(v),
        result matches Err(e) ==> out == (if failure_would_block {
            PollOutcome::<T, E>::WouldBlock
        } else {
            PollOutcome::<T, E>::Failed(e)
        }),
{
    match result {
        Ok(v) => PollOutcome::Ready(v),
        Err(e) => if failure_would_block {
            PollOutcome::WouldBlock
        } else {
            PollOutcome::Failed(e)
        },
    }
}

/// Classifies a host I/O result: success is ready now; a failure is the
/// retry signal exactly when the host marked its kind "operation would
/// block" (judged by the trusted kind test above), and every other
/// failure is terminal with the error unchanged.
pub fn into_nb_result<T>(result: Result<T, std::io::Error>) -> (out: PollOutcome<
    T,
    std::io::Error,
>)
    ensures
        result matches Ok(v) ==> out == PollOutcome::<T, std::io::Error>::Ready(v),
        result matches Err(e) ==> out == (if would_block_kind(e) {
            PollOutcome::<T, std::io::Error>::WouldBlock
        } else {
            PollOutcome::<T, std::io::Error>::Failed(e)
        }),
        out is Ready ==> result is Ok,
{
    match result {
        Ok(v) => PollOutcome::Ready(v),
        Err(e) => {
            let blocks = error_kind_would_block(&e);
            classify_host(Err(e), blocks)
        },
    }
}

} // verus!
