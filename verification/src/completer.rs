//! A single-slot holder of a one-shot producer handle. Two racing callers may
//! each ask for the handle; the first one gets it, every later one gets
//! nothing.
//!
//! The guard itself is plain owned data. Callers that share it, such as two
//! callbacks, put it behind their own lock; every call then sees the guard as
//! the call before left it, which is all that the facts below rely on.

use vstd::prelude::*;

verus! {

/// Holds the producer half of a one-shot channel until the first caller
/// claims it.
pub struct Completer<P> {
    slot: Option<P>,
}

impl<P> View for Completer<P> {
    type V = Option<P>;

    /// The handle that is still held, if any.
    closed spec fn view(&self) -> Option<P> {
        self.slot
    }
}

/// What a guard holds after a call of `try_take`: nothing, whatever it held
/// before.
pub open spec fn after_take<P>(held: Option<P>) -> Option<P> {
    None
}

/// What `calls` calls of `try_take` in a row return, in order, on a guard that
/// holds `held` before the first of them.
pub open spec fn take_results<P>(held: Option<P>, calls: nat) -> Seq<Option<P>>
    decreases calls,
{
    if calls == 0 {
        Seq::empty()
    } else {
        seq![held] + take_results(after_take(held), (calls - 1) as nat)
    }
}

/// How many of `results` are a handle.
pub open spec fn granted<P>(results: Seq<Option<P>>) -> nat
    decreases results.len(),
{
    if results.len() == 0 {
        0
    } else {
        granted(results.drop_first()) + if results[0].is_some() {
            1nat
        } else {
            0nat
        }
    }
}

impl<P> Completer<P> {
    /// A guard that holds `producer`.
    pub fn new(producer: P) -> (guard: Self)
        ensures
            guard@ == Some(producer),
    {
        Completer { slot: Some(producer) }
    }

    /// Whether the handle is still held.
    pub fn is_armed(&self) -> (armed: bool)
        ensures
            armed == self@.is_some(),
    {
        self.slot.is_some()
    }

    /// Hands the handle out if it is still held, and holds nothing afterwards.
    pub fn try_take(&mut self) -> (taken: Option<P>)
        ensures
            taken == old(self)@,
            final(self)@ == after_take(old(self)@),
    {
        self.slot.take()
    }
}

/// On a guard that holds nothing, every call returns nothing.
pub proof fn lemma_spent_guard_stays_spent<P>(calls: nat)
    ensures
        take_results(None::<P>, calls).len() == calls,
        forall|i: int| 0 <= i < calls ==> take_results(None::<P>, calls)[i].is_none(),
        granted(take_results(None::<P>, calls)) == 0,
    decreases calls,
{
    if calls > 0 {
        let rest = take_results(None::<P>, (calls - 1) as nat);
        lemma_spent_guard_stays_spent::<P>((calls - 1) as nat);
        assert(take_results(None::<P>, calls).drop_first() =~= rest);
    }
}

/// Of any number of calls on a fresh guard, the first returns the handle and
/// every later one returns nothing: exactly one call is granted.
pub proof fn lemma_single_fire<P>(producer: P, calls: nat)
    requires
        calls > 0,
    ensures
        take_results(Some(producer), calls).len() == calls,
        take_results(Some(producer), calls)[0] == Some(producer),
        forall|i: int| 1 <= i < calls ==> take_results(Some(producer), calls)[i].is_none(),
        granted(take_results(Some(producer), calls)) == 1,
{
    let rest = take_results(None::<P>, (calls - 1) as nat);
    lemma_spent_guard_stays_spent::<P>((calls - 1) as nat);
    assert(take_results(Some(producer), calls).drop_first() =~= rest);
}

} // verus!
