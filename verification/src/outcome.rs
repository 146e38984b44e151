//! The three-outcome result of a non-blocking polling operation, and the
//! pure transformations over it.

use vstd::prelude::*;
use vstd::std_specs::convert::FromSpec;

verus! {

/// What one invocation of a polling operation produced.
///
/// Exactly one of three shapes: the polled value is available now, no
/// value is available yet and the caller should retry later, or a
/// terminal error occurred and the producer should be treated as
/// exhausted. The retry shape carries no payload at all.
#[derive(Debug, PartialEq, Eq)]
pub enum PollOutcome<T, E> {
    /// The polled value is available now.
    Ready(T),
    /// No value yet; retry later.
    WouldBlock,
    /// A terminal, non-retryable error.
    Failed(E),
}

impl<T, E> PollOutcome<T, E> {
    /// True exactly when this outcome is the retry signal.
    pub fn is_would_block(&self) -> (r: bool)
        ensures
            r == (self is WouldBlock),
    {
        match self {
            PollOutcome::WouldBlock => true,
            _ => false,
        }
    }

    /// Keeps a ready value only when the predicate accepts it; a rejected
    /// value is discarded and reported as not ready, so the caller
    /// re-polls from scratch. The other two shapes pass through
    /// unchanged, and the predicate is never invoked for them.
    pub fn wait<P: FnOnce(&T) -> bool>(self, pred: P) -> (out: Self)
        requires
            self matches PollOutcome::Ready(t) ==> call_requires(pred, (&t,)),
        ensures
            self is WouldBlock ==> out is WouldBlock,
            self matches PollOutcome::Failed(e) ==> out == PollOutcome::<T, E>::Failed(e),
            self matches PollOutcome::Ready(t) ==> {
                ||| (out == PollOutcome::<T, E>::Ready(t) && call_ensures(pred, (&t,), true))
                ||| (out is WouldBlock && call_ensures(pred, (&t,), false))
            },
    {
        match self {
            PollOutcome::Ready(value) => {
                if pred(&value) {
                    PollOutcome::Ready(value)
                } else {
                    PollOutcome::WouldBlock
                }
            }
            PollOutcome::WouldBlock => PollOutcome::WouldBlock,
            PollOutcome::Failed(e) => PollOutcome::Failed(e),
        }
    }

    /// Maps a ready value through a partial transform: `Some(u)` becomes
    /// ready with the new value, `None` means the value was not the one
    /// waited for and is reported as not ready. The other two shapes keep
    /// their tag unchanged (the error payload is re-typed, the retry
    /// shape has none), and the transform is never invoked for them.
    pub fn wait_map<U, P: FnOnce(T) -> Option<U>>(self, pred: P) -> (out: PollOutcome<U, E>)
        requires
            self matches PollOutcome::Ready(t) ==> call_requires(pred, (t,)),
        ensures
            self is WouldBlock ==> out is WouldBlock,
            self matches PollOutcome::Failed(e) ==> out == PollOutcome::<U, E>::Failed(e),
            self matches PollOutcome::Ready(t) ==> exists|mapped: Option<U>|
                {
                    &&& #[trigger] call_ensures(pred, (t,), mapped)
                    &&& (mapped matches Some(u) ==> out == PollOutcome::<U, E>::Ready(u))
                    &&& (mapped is None ==> out is WouldBlock)
                    &&& (out is Ready <==> mapped is Some)
                },
    {
        match self {
            PollOutcome::Ready(value) => {
                if let Some(mapped) = pred(value) {
                    PollOutcome::Ready(mapped)
                } else {
                    PollOutcome::WouldBlock
                }
            }
            PollOutcome::WouldBlock => PollOutcome::WouldBlock,
            PollOutcome::Failed(e) => PollOutcome::Failed(e),
        }
    }

    /// Acts on a ready value and does nothing otherwise: a terminal error
    /// is returned at once and the consumer is never invoked; the retry
    /// signal is silently absorbed as success, again without invoking the
    /// consumer; a ready value is handed to the consumer exactly once,
    /// whose error (of its own type) is converted into this outcome's
    /// error type.
    pub fn if_ready<F: FnOnce(T) -> Result<(), U>, U>(self, then: F) -> (out: Result<(), E>) where
        E: From<U>,

        requires
            self matches PollOutcome::Ready(t) ==> call_requires(then, (t,)),
        ensures
            self matches PollOutcome::Failed(e) ==> out == Result::<(), E>::Err(e),
            self is WouldBlock ==> out == Result::<(), E>::Ok(()),
            self matches PollOutcome::Ready(t) ==> exists|acted: Result<(), U>|
                {
                    &&& #[trigger] call_ensures(then, (t,), acted)
                    &&& (out is Ok <==> acted is Ok)
                    &&& (acted matches Err(u) ==> out matches Err(e) && (
                        <E as FromSpec<U>>::obeys_from_spec() ==> e == <E as FromSpec<
                            U,
                        >>::from_spec(u)))
                },
    {
        match self {
            PollOutcome::Failed(e) => Err(e),
            PollOutcome::WouldBlock => Ok(()),
            PollOutcome::Ready(value) => match then(value) {
                Ok(()) => Ok(()),
                Err(u) => Err(E::from(u)),
            },
        }
    }

    /// Extracts a ready value, treating "not ready" as an ordinary
    /// absence rather than an error: the caller is expected to retry.
    /// A terminal error is the one shape this method refuses to handle;
    /// call sites use it only where they have shown the failure path
    /// cannot be reached.
    #[allow(unused_variables)]
    pub fn expect_ok(self, msg: &str) -> (out: Option<T>)
        requires
            !(self is Failed),
        ensures
            self matches PollOutcome::Ready(t) ==> out == Some(t),
            self is WouldBlock ==> out is None,
    {
        match self {
            PollOutcome::Ready(value) => Some(value),
            PollOutcome::WouldBlock => None,
            PollOutcome::Failed(_) => {
                assert(false);
                None
            },
        }
    }
}

} // verus!
