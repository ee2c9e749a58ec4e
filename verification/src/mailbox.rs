//! The bounded queue between the listeners and the store actor.

use vstd::prelude::*;
use tokio::sync::mpsc::error::TrySendError;
use tokio::sync::mpsc::{Receiver, Sender};
use crate::event::StoreMessage;

verus! {

/// The number of messages that the queue between the listeners and the store
/// actor holds before a listener has to wait.
pub const QUEUE_CAPACITY: usize = 200;

/// The sending half of a bounded channel of `tokio`.
#[verifier::external_type_specification]
#[verifier::external_body]
#[verifier::reject_recursive_types(T)]
pub struct ExSender<T>(Sender<T>);

/// The receiving half of a bounded channel of `tokio`.
#[verifier::external_type_specification]
#[verifier::external_body]
#[verifier::reject_recursive_types(T)]
pub struct ExReceiver<T>(Receiver<T>);

/// The messages that wait in the channel that `rx` reads, the oldest first.
pub uninterp spec fn waiting(rx: Receiver<StoreMessage>) -> Seq<StoreMessage>;

/// The number of messages that the channel read by `rx` was made to hold.
pub uninterp spec fn bound(rx: Receiver<StoreMessage>) -> nat;

/// Whether `tx` is the one sender of the channel that `rx` reads, and the
/// channel is open.
pub uninterp spec fn paired(tx: Sender<StoreMessage>, rx: Receiver<StoreMessage>) -> bool;

/// The largest bound that a channel can be made with.
pub open spec fn max_bound() -> nat {
    (usize::MAX / 8) as nat
}

/// Calls `tokio::sync::mpsc::channel`. The two halves that come back belong to
/// one new channel, which is empty and holds up to `capacity` messages. The
/// call panics where `capacity` is zero or above `usize::MAX >> 3`.
#[verifier::external_body]
fn open_channel(capacity: usize) -> (ends: (Sender<StoreMessage>, Receiver<StoreMessage>))
    requires
        0 < capacity <= max_bound(),
    ensures
        paired(ends.0, ends.1),
        waiting(ends.1) == Seq::<StoreMessage>::empty(),
        bound(ends.1) == capacity,
{
    tokio::sync::mpsc::channel(capacity)
}

/// Calls `Sender::try_send`. Where the channel holds fewer messages than its
/// bound, the message joins the queue behind the others; where the channel is
/// full, it comes back with the error and the queue is as before. `rx` is the
/// receiver of the same channel: the call does not touch it, but what waits
/// for it changes.
#[allow(unused_variables)]
#[verifier::external_body]
fn channel_try_send(
    tx: &Sender<StoreMessage>,
    rx: &mut Receiver<StoreMessage>,
    message: StoreMessage,
) -> (sent: Result<(), StoreMessage>)
    requires
        paired(*tx, *old(rx)),
    ensures
        paired(*tx, *final(rx)),
        bound(*final(rx)) == bound(*old(rx)),
        match sent {
            Ok(()) => waiting(*old(rx)).len() < bound(*old(rx)) && waiting(*final(rx)) == waiting(
                *old(rx),
            ).push(message),
            Err(back) => waiting(*old(rx)).len() >= bound(*old(rx)) && back == message && waiting(
                *final(rx),
            ) == waiting(*old(rx)),
        },
{
    match tx.try_send(message) {
        Ok(()) => Ok(()),
        Err(TrySendError::Full(back)) => Err(back),
        Err(TrySendError::Closed(back)) => Err(back),
    }
}

/// Calls `Receiver::try_recv`. Where a message waits, the oldest one leaves
/// the queue and is returned; where none waits, nothing is returned and
/// nothing changes. `tx` is the sender of the same channel: the call does not
/// touch it, and it is the channel's one sender afterwards as it was before.
#[allow(unused_variables)]
#[verifier::external_body]
fn channel_try_recv(tx: &Sender<StoreMessage>, rx: &mut Receiver<StoreMessage>) -> (got: Option<
    StoreMessage,
>)
    requires
        paired(*tx, *old(rx)),
    ensures
        paired(*tx, *final(rx)),
        bound(*final(rx)) == bound(*old(rx)),
        match got {
            Some(message) => waiting(*old(rx)).len() > 0 && message == waiting(*old(rx))[0]
                && waiting(*final(rx)) == waiting(*old(rx)).drop_first(),
            None => waiting(*old(rx)).len() == 0 && waiting(*final(rx)) == waiting(*old(rx)),
        },
{
    rx.try_recv().ok()
}

/// The bounded queue between the listeners and the store actor, with both of
/// its ends in one hand. Messages leave it in the order in which they entered,
/// and it never holds more than its capacity: a message that finds it full is
/// handed back to the sender, who has to wait and try again.
pub struct Mailbox {
    tx: Sender<StoreMessage>,
    rx: Receiver<StoreMessage>,
}

impl View for Mailbox {
    type V = Seq<StoreMessage>;

    /// The messages that wait, the oldest first.
    closed spec fn view(&self) -> Seq<StoreMessage> {
        waiting(self.rx)
    }
}

impl Mailbox {
    /// The number of messages that the queue can hold.
    pub closed spec fn capacity(&self) -> nat {
        bound(self.rx)
    }

    /// Holds of every mailbox that `with_capacity` has made, and is kept by
    /// every operation.
    pub closed spec fn wf(&self) -> bool {
        &&& paired(self.tx, self.rx)
        &&& waiting(self.rx).len() <= bound(self.rx)
        &&& 0 < bound(self.rx)
    }

    /// An empty queue for up to `capacity` messages, or `None` where no queue
    /// of that capacity can be made: for zero, and for more than an eighth of
    /// the address space.
    pub fn with_capacity(capacity: usize) -> (made: Option<Mailbox>)
        ensures
            made is Some <==> 0 < capacity <= max_bound(),
            made matches Some(mailbox) ==> mailbox.wf() && mailbox@.len() == 0
                && mailbox.capacity() == capacity,
    {
        if capacity == 0 || capacity > usize::MAX / 8 {
            return None;
        }
        let (tx, rx) = open_channel(capacity);
        Some(Mailbox { tx, rx })
    }

    /// Puts a message at the end of the queue. A full queue takes nothing:
    /// the message comes back as the error, and the queue is unchanged.
    pub fn submit(&mut self, message: StoreMessage) -> (sent: Result<(), StoreMessage>)
        requires
            old(self).wf(),
        ensures
            final(self).wf(),
            final(self).capacity() == old(self).capacity(),
            match sent {
                Ok(()) => old(self)@.len() < old(self).capacity() && final(self)@
                    == old(self)@.push(message),
                Err(back) => old(self)@.len() == old(self).capacity() && back == message
                    && final(self)@ == old(self)@,
            },
    {
        channel_try_send(&self.tx, &mut self.rx, message)
    }

    /// Takes the oldest message out of the queue, if there is one.
    pub fn take(&mut self) -> (got: Option<StoreMessage>)
        requires
            old(self).wf(),
        ensures
            final(self).wf(),
            final(self).capacity() == old(self).capacity(),
            match got {
                Some(message) => old(self)@.len() > 0 && message == old(self)@[0] && final(self)@
                    == old(self)@.drop_first(),
                None => old(self)@.len() == 0 && final(self)@ == old(self)@,
            },
    {
        channel_try_recv(&self.tx, &mut self.rx)
    }
}

} // verus!
