//! The completion signal: a one-shot channel that carries a single value from
//! a host callback to the routine that waits for it. The channel itself is
//! `futures::channel::oneshot`; this module gives its two halves types of the
//! library and says what the library relies on.

use futures::channel::oneshot::{Canceled, Receiver, Sender};
use vstd::prelude::*;

verus! {

/// `futures::channel::oneshot::Sender`, carried as an opaque value.
#[verifier::external_type_specification]
#[verifier::external_body]
#[verifier::reject_recursive_types(T)]
pub struct ExSender<T>(Sender<T>);

/// `futures::channel::oneshot::Receiver`, carried as an opaque value.
#[verifier::external_type_specification]
#[verifier::external_body]
#[verifier::reject_recursive_types(T)]
pub struct ExReceiver<T>(Receiver<T>);

/// `futures::channel::oneshot::Canceled`, the channel's one error.
#[verifier::external_type_specification]
#[verifier::external_body]
pub struct ExCanceled(Canceled);

/// Calls `futures::channel::oneshot::channel`. Nothing is claimed of the two
/// halves.
#[verifier::external_body]
fn open_channel<T>() -> (halves: (Sender<T>, Receiver<T>)) {
    futures::channel::oneshot::channel()
}

/// Calls `Sender::send`. Whether the value is accepted depends on the other
/// half; the one claim is that a value that comes back is the value that was
/// offered.
#[verifier::external_body]
fn transmit<T>(sender: Sender<T>, value: T) -> (answer: Result<(), T>)
    ensures
        answer matches Err(back) ==> back == value,
{
    sender.send(value)
}

/// Calls `Receiver::try_recv`. Nothing is claimed of what it finds.
#[verifier::external_body]
fn try_receive<T>(receiver: &mut Receiver<T>) -> (found: Result<Option<T>, Canceled>) {
    receiver.try_recv()
}

/// The sending half: moved, never copied, and used up by `send`.
#[verifier::reject_recursive_types(T)]
pub struct Producer<T> {
    sender: Sender<T>,
}

/// The receiving half.
#[verifier::reject_recursive_types(T)]
pub struct Consumer<T> {
    receiver: Receiver<T>,
}

/// What a look at the receiving half finds.
#[derive(Debug, PartialEq, Eq)]
pub enum Polled<T> {
    /// Nothing was sent yet.
    Pending,
    /// The value that was sent.
    Ready(T),
    /// The sending half is gone and sent nothing: no value will come.
    Abandoned,
}

/// What `Polled` says of an answer of the channel.
pub open spec fn polled_of<T>(found: Result<Option<T>, Canceled>) -> Polled<T> {
    match found {
        Ok(Some(value)) => Polled::Ready(value),
        Ok(None) => Polled::Pending,
        Err(_) => Polled::Abandoned,
    }
}

/// Reads an answer of the channel.
pub fn polled<T>(found: Result<Option<T>, Canceled>) -> (state: Polled<T>)
    ensures
        state == polled_of(found),
{
    match found {
        Ok(Some(value)) => Polled::Ready(value),
        Ok(None) => Polled::Pending,
        Err(_) => Polled::Abandoned,
    }
}

/// Reads what awaiting the receiving half gave: the value, or the news that
/// none will come. An awaited signal is never pending.
pub fn settled<T>(awaited: Result<T, Canceled>) -> (state: Polled<T>)
    ensures
        state == match awaited {
            Ok(value) => Polled::Ready(value),
            Err(_) => Polled::Abandoned,
        },
{
    match awaited {
        Ok(value) => Polled::Ready(value),
        Err(_) => Polled::Abandoned,
    }
}

/// A fresh signal: the half that resolves it and the half that waits for it.
pub fn create<T>() -> (halves: (Producer<T>, Consumer<T>)) {
    let (sender, receiver) = open_channel();
    (Producer { sender }, Consumer { receiver })
}

impl<T> Producer<T> {
    /// Resolves the signal with `value`. `Err` hands the value back: the
    /// receiving half no longer exists.
    pub fn send(self, value: T) -> (answer: Result<(), T>)
        ensures
            answer matches Err(back) ==> back == value,
    {
        transmit(self.sender, value)
    }
}

impl<T> Consumer<T> {
    /// The channel's receiving half that this consumer wraps.
    pub closed spec fn receiver(self) -> Receiver<T> {
        self.receiver
    }

    /// Looks for the value without waiting.
    pub fn poll(&mut self) -> (state: Polled<T>) {
        polled(try_receive(&mut self.receiver))
    }

    /// Gives up the wrapper, for a caller that awaits the channel itself:
    /// what comes out is the receiving half that was wrapped, no other.
    pub fn into_receiver(self) -> (receiver: Receiver<T>)
        ensures
            receiver == self.receiver(),
    {
        self.receiver
    }
}

} // verus!
