//! Bridging three-outcome results into a cooperative scheduler's
//! suspend/resolve protocol.
//!
//! A suspendable computation is driven one scheduler turn at a time.
//! Each turn either resolves the computation with a final result or
//! suspends it; a suspension always comes with the obligation to ask the
//! scheduler for a re-wake, since no readiness event is tracked and the
//! only valid policy is "try again soon".

use crate::outcome::PollOutcome;
use vstd::prelude::*;

verus! {

/// What a suspendable computation tells its scheduler after one turn.
#[derive(Debug, PartialEq, Eq)]
pub enum SuspensionState<T, E> {
    /// The computation finished with this result.
    Resolved(Result<T, E>),
    /// Not finished yet. The computation wants to be re-invoked; the
    /// code that owns the scheduler handle must request a re-wake
    /// before handing control back.
    Suspended,
}

/// The pure, total mapping from one polling outcome to the scheduler
/// protocol: a ready value resolves successfully, a terminal error
/// resolves with that failure, and the retry signal suspends.
pub open spec fn suspension_of<T, E>(outcome: PollOutcome<T, E>) -> SuspensionState<T, E> {
    match outcome {
        PollOutcome::Ready(t) => SuspensionState::Resolved(Ok(t)),
        PollOutcome::Failed(e) => SuspensionState::Resolved(Err(e)),
        PollOutcome::WouldBlock => SuspensionState::Suspended,
    }
}

impl<T, E> PollOutcome<T, E> {
    /// Translates this outcome for one scheduler turn, exactly as
    /// [`suspension_of`] says. When the turn suspends, the driver owes
    /// the scheduler a re-wake request; issuing it is left to the code
    /// that owns the scheduler handle.
    pub fn into_poll(self) -> (state: SuspensionState<T, E>)
        ensures
            state == suspension_of(self),
    {
        match self {
            PollOutcome::Ready(t) => SuspensionState::Resolved(Ok(t)),
            PollOutcome::Failed(e) => SuspensionState::Resolved(Err(e)),
            PollOutcome::WouldBlock => SuspensionState::Suspended,
        }
    }
}

/// A single-value computation whose polling operation asks for a retry
/// on its first turns and produces a value after that resolves on
/// exactly the turn that sees the value: every earlier turn suspends
/// (each one requesting a re-wake), and the turn with the value resolves
/// successfully with it.
pub proof fn lemma_single_value_resolution<T, E>(turns: Seq<PollOutcome<T, E>>, n: int, v: T)
    requires
        0 <= n < turns.len(),
        forall|i: int| 0 <= i < n ==> turns[i] is WouldBlock,
        turns[n] == PollOutcome::<T, E>::Ready(v),
    ensures
        forall|i: int| 0 <= i < n ==> #[trigger] suspension_of(turns[i]) is Suspended,
        suspension_of(turns[n]) == SuspensionState::<T, E>::Resolved(Ok(v)),
{
}

/// The items that a run of polling outcomes yields as a sequence, in
/// order: one item per outcome that is not the retry signal — a ready
/// value as a success item, a terminal error as an error item. Retries
/// contribute nothing, and the sequence never ends on its own: whether
/// to keep asking after an error item is the caller's decision, and a
/// polling operation is not promised to be meaningfully pollable again
/// once it has failed. Outcomes recorded after one are handled like any
/// other.
pub open spec fn emitted_items<T, E>(outcomes: Seq<PollOutcome<T, E>>) -> Seq<Result<T, E>>
    decreases outcomes.len(),
{
    if outcomes.len() == 0 {
        Seq::empty()
    } else {
        let rest = emitted_items(outcomes.drop_last());
        match outcomes.last() {
            PollOutcome::Ready(t) => rest.push(Ok(t)),
            PollOutcome::Failed(e) => rest.push(Err(e)),
            PollOutcome::WouldBlock => rest,
        }
    }
}

/// One more turn of the sequence bridge changes what the run yields in
/// exactly one way: a retry turn emits nothing at all, a ready value
/// appends one success item, and a terminal error appends one error
/// item. Items therefore come one per logical ready/failed event, in
/// the order those events happened, however many retries stand between
/// them; an error never cuts the sequence short on its own.
pub proof fn lemma_emitted_items_per_turn<T, E>(
    outcomes: Seq<PollOutcome<T, E>>,
    next: PollOutcome<T, E>,
)
    ensures
        next is WouldBlock ==> emitted_items(outcomes.push(next)) == emitted_items(outcomes),
        next matches PollOutcome::Ready(t) ==> emitted_items(outcomes.push(next))
            == emitted_items(outcomes).push(Ok(t)),
        next matches PollOutcome::Failed(e) ==> emitted_items(outcomes.push(next))
            == emitted_items(outcomes).push(Err(e)),
{
    assert(outcomes.push(next).drop_last() =~= outcomes);
}

/// Drives the sequence bridge over a recorded run of a polling
/// operation: each outcome goes through one scheduler turn in order, a
/// suspended turn emits nothing, and a resolved turn emits its item.
/// What comes out is exactly [`emitted_items`] of the run: the non-retry
/// outcomes, one item each, in the order they were produced.
pub fn sequence_items<T, E>(outcomes: Vec<PollOutcome<T, E>>) -> (items: Vec<Result<T, E>>)
    ensures
        items@ == emitted_items(outcomes@),
{
    let ghost full = outcomes@;
    let ghost mut done: int = 0;
    let mut remaining = outcomes;
    let mut items: Vec<Result<T, E>> = Vec::new();
    while remaining.len() > 0
        invariant
            0 <= done <= full.len(),
            remaining@ == full.subrange(done, full.len() as int),
            items@ == emitted_items(full.take(done)),
        decreases remaining.len(),
    {
        let next = remaining.remove(0);
        proof {
            assert(next == full[done]);
            assert(remaining@ =~= full.subrange(done + 1, full.len() as int));
            assert(full.take(done + 1).drop_last() =~= full.take(done));
        }
        match next.into_poll() {
            SuspensionState::Resolved(item) => items.push(item),
            SuspensionState::Suspended => (),
        }
        proof {
            done = done + 1;
        }
    }
    proof {
        assert(full.take(done) =~= full);
    }
    items
}

/// A suspendable computation that suspends exactly once and then
/// completes with no value: a voluntary hand-back of control, used to
/// interleave fairly without waiting on any real condition.
#[derive(Debug, PartialEq, Eq)]
pub enum YieldOnce {
    /// The single suspension has not happened yet.
    NotYetYielded,
    /// The single suspension already happened.
    Yielded,
}

impl YieldOnce {
    /// A fresh computation that has not yielded yet.
    pub fn new() -> (y: Self)
        ensures
            y is NotYetYielded,
    {
        YieldOnce::NotYetYielded
    }

    /// One scheduler turn. The first turn always suspends (and so asks
    /// for a re-wake); every turn after that resolves at once with no
    /// value, whatever the scheduler did in between.
    pub fn step(&mut self) -> (state: SuspensionState<(), ()>)
        ensures
            *old(self) is NotYetYielded ==> state is Suspended && *final(self) is Yielded,
            *old(self) is Yielded ==> state == SuspensionState::<(), ()>::Resolved(Ok(()))
                && *final(self) is Yielded,
    {
        match *self {
            YieldOnce::NotYetYielded => {
                *self = YieldOnce::Yielded;
                SuspensionState::Suspended
            },
            YieldOnce::Yielded => SuspensionState::Resolved(Ok(())),
        }
    }
}

} // verus!
