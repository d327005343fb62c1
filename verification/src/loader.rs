//! The resource loader's callbacks. The host reports a load through two
//! callbacks, one for success and one for failure, and may call either, both,
//! in any order. Both share one guard around the producer of a completion
//! signal, so that the first callback to fire resolves the signal and every
//! later one does nothing.

use crate::completer::{after_take, Completer};
use crate::signal::{create, Consumer, Producer};
use vstd::prelude::*;

verus! {

/// How a load ended. `E` is the host's error, carried as it came.
pub type LoadOutcome<E> = Result<(), E>;

/// A callback that the host fired.
#[derive(Debug, PartialEq, Eq)]
pub enum HostEvent<E> {
    /// The success callback.
    Loaded,
    /// The failure callback, with the error that the host reported.
    Failed(E),
}

/// What a fired callback did.
#[derive(Debug, PartialEq, Eq)]
pub enum Effect<E> {
    /// It was the first to fire: its outcome went into the signal.
    Resolved,
    /// It was the first to fire, but nobody waits for the signal any more;
    /// the outcome is handed back.
    Unheard(LoadOutcome<E>),
    /// Another callback had fired before: nothing was done.
    Ignored,
}

/// The outcome that a callback reports.
pub open spec fn outcome_of<E>(event: HostEvent<E>) -> LoadOutcome<E> {
    match event {
        HostEvent::Loaded => Ok(()),
        HostEvent::Failed(error) => Err(error),
    }
}

/// What a callback gets from a guard that holds `held`: the handle together
/// with the outcome to send through it, or nothing.
pub open spec fn claim_of<P, E>(held: Option<P>, event: HostEvent<E>) -> Option<
    (P, LoadOutcome<E>),
> {
    match held {
        Some(producer) => Some((producer, outcome_of(event))),
        None => None,
    }
}

/// What the sending half's answer means for the callback that sent.
pub open spec fn effect_of<E>(answer: Result<(), LoadOutcome<E>>) -> Effect<E> {
    match answer {
        Ok(_) => Effect::Resolved,
        Err(outcome) => Effect::Unheard(outcome),
    }
}

/// The outcomes that are handed to the producer when `events` fire in this
/// order on a guard that holds `held` before the first of them.
pub open spec fn outcomes_sent<P, E>(held: Option<P>, events: Seq<HostEvent<E>>) -> Seq<
    LoadOutcome<E>,
>
    decreases events.len(),
{
    if events.len() == 0 {
        Seq::empty()
    } else {
        let first = match claim_of(held, events[0]) {
            Some((_, outcome)) => seq![outcome],
            None => Seq::empty(),
        };
        first + outcomes_sent(after_take(held), events.drop_first())
    }
}

impl<E> HostEvent<E> {
    /// The outcome that this callback reports.
    pub fn outcome(self) -> (outcome: LoadOutcome<E>)
        ensures
            outcome == outcome_of(self),
    {
        match self {
            HostEvent::Loaded => Ok(()),
            HostEvent::Failed(error) => Err(error),
        }
    }
}

/// Asks the guard for the handle on behalf of a fired callback. The first
/// callback gets the handle and the outcome to send; the guard is spent
/// afterwards.
pub fn claim<P, E>(guard: &mut Completer<P>, event: HostEvent<E>) -> (claimed: Option<
    (P, LoadOutcome<E>),
>)
    ensures
        claimed == claim_of(old(guard)@, event),
        final(guard)@ == after_take(old(guard)@),
{
    match guard.try_take() {
        Some(producer) => Some((producer, event.outcome())),
        None => None,
    }
}

/// Reads the sending half's answer.
pub fn effect<E>(answer: Result<(), LoadOutcome<E>>) -> (effect: Effect<E>)
    ensures
        effect == effect_of(answer),
{
    match answer {
        Ok(_) => Effect::Resolved,
        Err(outcome) => Effect::Unheard(outcome),
    }
}

/// Prepares a load: a fresh completion signal, its producer behind a guard
/// for the two callbacks to share, and its consumer for the routine that
/// waits.
pub fn begin<E>() -> (parts: (Completer<Producer<LoadOutcome<E>>>, Consumer<LoadOutcome<E>>))
    ensures
        parts.0@.is_some(),
{
    let (producer, consumer) = create();
    (Completer::new(producer), consumer)
}

/// A callback fired. If it is the first, its outcome is sent through the
/// signal; otherwise nothing happens.
pub fn on_event<E>(guard: &mut Completer<Producer<LoadOutcome<E>>>, event: HostEvent<E>) -> (effect:
    Effect<E>)
    ensures
        final(guard)@.is_none(),
        effect is Ignored <==> old(guard)@.is_none(),
        effect matches Effect::Unheard(outcome) ==> outcome == outcome_of(event),
{
    match claim(guard, event) {
        Some((producer, outcome)) => effect(producer.send(outcome)),
        None => Effect::Ignored,
    }
}

/// The success callback fired.
pub fn on_load<E>(guard: &mut Completer<Producer<LoadOutcome<E>>>) -> (effect: Effect<E>)
    ensures
        final(guard)@.is_none(),
        effect is Ignored <==> old(guard)@.is_none(),
        effect matches Effect::Unheard(outcome) ==> outcome == Ok::<(), E>(()),
{
    on_event(guard, HostEvent::Loaded)
}

/// The failure callback fired with `error`.
pub fn on_error<E>(guard: &mut Completer<Producer<LoadOutcome<E>>>, error: E) -> (effect: Effect<E>)
    ensures
        final(guard)@.is_none(),
        effect is Ignored <==> old(guard)@.is_none(),
        effect matches Effect::Unheard(outcome) ==> outcome == Err::<(), E>(error),
{
    on_event(guard, HostEvent::Failed(error))
}

/// On a spent guard no callback sends anything, whatever fires.
pub proof fn lemma_spent_guard_sends_nothing<P, E>(events: Seq<HostEvent<E>>)
    ensures
        outcomes_sent(None::<P>, events) == Seq::<LoadOutcome<E>>::empty(),
    decreases events.len(),
{
    if events.len() > 0 {
        lemma_spent_guard_sends_nothing::<P, E>(events.drop_first());
    }
}

/// Whatever callbacks fire, and in whatever order, exactly one outcome is
/// sent: that of the callback that fired first.
pub proof fn lemma_first_event_wins<P, E>(producer: P, events: Seq<HostEvent<E>>)
    requires
        events.len() > 0,
    ensures
        outcomes_sent(Some(producer), events) == seq![outcome_of(events[0])],
{
    lemma_spent_guard_sends_nothing::<P, E>(events.drop_first());
}

} // verus!
