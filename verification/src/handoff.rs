//! The handoff channel: it moves a processor from the control side to the
//! render side without blocking either of them.
//!
//! The channel is `std::sync::mpsc`'s. The control side keeps the
//! [`HandoffSender`], the render side the [`HandoffReceiver`]. What the other
//! side has done to the channel is not known to Verus, so each end keeps what
//! it knows for certain in a field of its own: the sending end whether a send
//! has failed, the receiving end whether it has taken a value. The contracts
//! are stated over those fields and hold of every outcome: a channel hands
//! over one value in its life, and a send to a receiver that is gone fails
//! from then on. The render host and the backend say what they do with each
//! outcome.

use std::sync::mpsc::{Receiver, Sender};
use vstd::prelude::*;

verus! {

/// `std::sync::mpsc::Sender`, carried as an opaque value.
#[verifier::external_type_specification]
#[verifier::external_body]
#[verifier::reject_recursive_types(T)]
pub struct ExSender<T>(Sender<T>);

/// `std::sync::mpsc::Receiver`, carried as an opaque value.
#[verifier::external_type_specification]
#[verifier::external_body]
#[verifier::reject_recursive_types(T)]
pub struct ExReceiver<T>(Receiver<T>);

/// `std::sync::mpsc::channel`: the two ends of a new channel. Nothing is
/// claimed of them.
pub assume_specification<T>[ std::sync::mpsc::channel::<T> ]() -> (ends: (Sender<T>, Receiver<T>));

/// `Sender::send`: never blocks. Where the receiver is gone the value comes
/// back, as `SendError` holds it; nothing is claimed of when that happens.
#[verifier::external_body]
fn channel_send<T>(sender: &Sender<T>, value: T) -> (outcome: Result<(), T>)
    ensures
        outcome matches Err(unsent) ==> unsent == value,
{
    match sender.send(value) {
        Ok(()) => Ok(()),
        Err(error) => Err(error.0),
    }
}

/// `Receiver::try_recv`: never blocks. A value that was waiting, or `None`
/// where none was or the sender is gone; nothing is claimed of which.
#[verifier::external_body]
fn channel_try_recv<T>(receiver: &Receiver<T>) -> (arrival: Option<T>) {
    receiver.try_recv().ok()
}

/// The value that could not be sent because the receiving end is gone.
#[derive(Debug)]
pub struct ReceiverGone<P>(pub P);

/// Whether a receiving end that has or has not `taken` a value hands one out
/// when the channel does or does not hold one (`waiting`).
pub open spec fn handed_out(taken: bool, waiting: bool) -> bool {
    !taken && waiting
}

/// Whether a receiving end has taken a value after a call of `try_receive`
/// that did or did not hand one out.
pub open spec fn taken_after_call(taken: bool, handed_out: bool) -> bool {
    taken || handed_out
}

/// Whether a receiving end has taken a value after it has asked the channel
/// once for each entry of `waiting`, in order.
pub open spec fn taken_after(taken: bool, waiting: Seq<bool>) -> bool
    decreases waiting.len(),
{
    if waiting.len() == 0 {
        taken
    } else {
        let before = taken_after(taken, waiting.drop_last());
        taken_after_call(before, handed_out(before, waiting.last()))
    }
}

/// A receiving end hands out at most one value in its life: once it has taken
/// one it hands out nothing more, whatever the channel holds from then on.
pub proof fn lemma_receiver_hands_out_once(waiting: Seq<bool>, next: bool)
    ensures
        taken_after(true, waiting),
        !handed_out(taken_after(true, waiting), next),
    decreases waiting.len(),
{
    if waiting.len() > 0 {
        lemma_receiver_hands_out_once(waiting.drop_last(), waiting.last());
    }
}

/// Whether a sending end has seen the receiving end gone after a send that
/// has or has not `failed`.
pub open spec fn gone_after_send(gone: bool, failed: bool) -> bool {
    gone || failed
}

/// Whether a sending end has seen the receiving end gone after sends of which
/// each has or has not `failed`, in order.
pub open spec fn gone_after(gone: bool, failed: Seq<bool>) -> bool
    decreases failed.len(),
{
    if failed.len() == 0 {
        gone
    } else {
        gone_after_send(gone_after(gone, failed.drop_last()), failed.last())
    }
}

/// A sending end that has seen the receiving end gone has seen it so for
/// good: every later send fails.
pub proof fn lemma_gone_receiver_stays_gone(failed: Seq<bool>)
    ensures
        gone_after(true, failed),
    decreases failed.len(),
{
    if failed.len() > 0 {
        lemma_gone_receiver_stays_gone(failed.drop_last());
    }
}

/// The sending end of a handoff channel.
#[verifier::reject_recursive_types(P)]
#[derive(Debug)]
pub struct HandoffSender<P> {
    sender: Sender<P>,
    receiver_gone: bool,
}

impl<P> View for HandoffSender<P> {
    type V = bool;

    /// Whether a send of this end has failed: whether it has seen the
    /// receiving end gone.
    closed spec fn view(&self) -> bool {
        self.receiver_gone
    }
}

/// The receiving end of a handoff channel.
#[verifier::reject_recursive_types(P)]
#[derive(Debug)]
pub struct HandoffReceiver<P> {
    receiver: Receiver<P>,
    taken: bool,
}

impl<P> View for HandoffReceiver<P> {
    type V = bool;

    /// Whether this end has taken a value.
    closed spec fn view(&self) -> bool {
        self.taken
    }
}

/// The two ends of a new handoff channel: a sending end that has not seen the
/// receiving end gone, and a receiving end that has taken nothing.
pub fn handoff<P>() -> (ends: (HandoffSender<P>, HandoffReceiver<P>))
    ensures
        !ends.0@,
        !ends.1@,
{
    let (sender, receiver) = std::sync::mpsc::channel();
    (HandoffSender { sender, receiver_gone: false }, HandoffReceiver { receiver, taken: false })
}

impl<P> HandoffSender<P> {
    /// Sends `value` without blocking. It fails where the receiving end is
    /// gone, and then hands `value` back. Once a send has failed every later
    /// one fails too.
    pub fn send(&mut self, value: P) -> (outcome: Result<(), ReceiverGone<P>>)
        ensures
            outcome matches Err(gone) ==> gone.0 == value,
            old(self)@ ==> outcome is Err,
            final(self)@ == gone_after_send(old(self)@, outcome is Err),
    {
        if self.receiver_gone {
            return Err(ReceiverGone(value));
        }
        match channel_send(&self.sender, value) {
            Ok(()) => Ok(()),
            Err(unsent) => {
                self.receiver_gone = true;
                Err(ReceiverGone(unsent))
            },
        }
    }
}

impl<P> HandoffReceiver<P> {
    /// Takes the value that has arrived, without blocking; `None` where none
    /// has. A receiving end takes one value in its life: once it has handed
    /// one out it hands out nothing more.
    pub fn try_receive(&mut self) -> (arrival: Option<P>)
        ensures
            old(self)@ ==> arrival is None,
            final(self)@ == taken_after_call(old(self)@, arrival is Some),
    {
        if self.taken {
            return None;
        }
        let arrival = channel_try_recv(&self.receiver);
        if arrival.is_some() {
            self.taken = true;
        }
        arrival
    }
}

} // verus!
