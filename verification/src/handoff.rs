//! Handing events to subscribers.
use tokio::sync::mpsc::error::TrySendError;
use tokio::sync::mpsc::{Receiver, Sender};
use vstd::prelude::*;

verus! {

/// The sending half of a bounded channel, `tokio::sync::mpsc::Sender`.
#[verifier::external_type_specification]
#[verifier::external_body]
#[verifier::reject_recursive_types(T)]
pub struct ExSender<T>(tokio::sync::mpsc::Sender<T>);

/// The receiving half of a bounded channel, `tokio::sync::mpsc::Receiver`.
#[verifier::external_type_specification]
#[verifier::external_body]
#[verifier::reject_recursive_types(T)]
pub struct ExReceiver<T>(tokio::sync::mpsc::Receiver<T>);

/// A channel can be made to hold this many events: one at least, and no more
/// than `Semaphore::MAX_PERMITS` of `tokio`.
pub open spec fn is_capacity(capacity: usize) -> bool {
    0 < capacity <= usize::MAX / 8
}

/// Trusted: `mpsc::channel` makes a channel for every capacity in these bounds,
/// outside of which it panics. Nothing is said of the two halves: they are
/// opaque.
pub assume_specification<T>[ tokio::sync::mpsc::channel::<T> ](buffer: usize) -> (r: (
    Sender<T>,
    Receiver<T>,
))
    requires
        is_capacity(buffer),
;

/// The two halves are those of one channel that `mpsc::channel` made to hold
/// `capacity` events.
pub open spec fn opened<T>(capacity: usize, tx: Sender<T>, rx: Receiver<T>) -> bool {
    call_ensures(tokio::sync::mpsc::channel::<T>, (capacity,), (tx, rx))
}

/// What became of an event that was offered to a subscriber.
#[derive(Debug, Clone, Copy, PartialEq, Eq)]
pub enum Handoff<T> {
    /// There was no event to offer.
    Nothing,
    /// The channel took the event.
    Sent,
    /// The channel was full, and the event came back.
    Full(T),
    /// The subscriber is gone, and the event came back.
    Closed(T),
}

impl<T> Handoff<T> {
    /// The event that came back.
    pub open spec fn returned(self) -> Option<T> {
        match self {
            Handoff::Full(event) => Some(event),
            Handoff::Closed(event) => Some(event),
            _ => None,
        }
    }
}

/// Calls `Sender::try_send`, and tells its results apart.
///
/// Trusted: the call either takes the event or gives the same event back, with
/// the reason. Which of these happens depends on what the subscriber has
/// received so far, so nothing is said of it.
#[verifier::external_body]
fn try_send<T>(producer: &Sender<T>, event: T) -> (r: Handoff<T>)
    ensures
        !(r is Nothing),
        r.returned() is Some ==> r.returned() == Some(event),
{
    match producer.try_send(event) {
        Ok(()) => Handoff::Sent,
        Err(TrySendError::Full(event)) => Handoff::Full(event),
        Err(TrySendError::Closed(event)) => Handoff::Closed(event),
    }
}

/// `r` is an answer of `Sender::try_send` to the call that hands `event` to
/// `sender`.
pub closed spec fn handed<T>(sender: Sender<T>, event: T, r: Handoff<T>) -> bool {
    call_ensures(try_send::<T>, (&sender, event), r)
}

/// Only an answer that `Sender::try_send` gave, to that sender and with that event,
/// counts as one: the event was taken, or is the one that came back.
proof fn law_handed<T>(sender: Sender<T>, event: T, r: Handoff<T>)
    ensures
        handed(sender, event, r) <==> call_ensures(try_send::<T>, (&sender, event), r),
        handed(sender, event, r) ==> !(r is Nothing),
        handed(sender, event, r) ==> (r matches Handoff::Full(back) ==> back == event),
        handed(sender, event, r) ==> (r matches Handoff::Closed(back) ==> back == event),
{
}

/// Trusted: `Sender::is_closed` tells whether the receiving half is gone. It can
/// go at any moment, so nothing is said of the result.
pub assume_specification<T>[ Sender::<T>::is_closed ](sender: &Sender<T>) -> (r: bool)
;

/// `open` is an answer of `Sender::is_closed` for `sender`, the other way round.
pub open spec fn answers_open<T>(sender: Sender<T>, open: bool) -> bool {
    call_ensures(Sender::<T>::is_closed, (&sender,), !open)
}

/// The sending half of a subscriber's channel, with a log of the events that
/// were handed to it and of its answers, in order.
#[verifier::reject_recursive_types(T)]
pub struct Producer<T> {
    tx: Sender<T>,
    log: Ghost<Seq<(T, Handoff<T>)>>,
}

impl<T> Producer<T> {
    /// The sending half of the channel.
    pub closed spec fn sender(&self) -> Sender<T> {
        self.tx
    }

    /// The events that were handed over, each with the answer of the channel.
    pub closed spec fn log(&self) -> Seq<(T, Handoff<T>)> {
        self.log@
    }

    /// This is a new channel for `capacity` events, which are received from `rx`,
    /// and nothing was handed to it yet.
    pub open spec fn is_opened(&self, capacity: usize, rx: Receiver<T>) -> bool {
        opened(capacity, self.sender(), rx) && self.log() == Seq::<(T, Handoff<T>)>::empty()
    }

    /// The log holds answers of this channel to the events that they stand by.
    #[verifier::type_invariant]
    spec fn log_is_true(self) -> bool {
        forall|i: int| 0 <= i < self.log@.len() ==> handed(
            self.tx,
            (#[trigger] self.log@[i]).0,
            self.log@[i].1,
        )
    }

    /// Makes a channel that holds `capacity` events.
    pub fn open(capacity: usize) -> (r: (Self, Receiver<T>))
        requires
            is_capacity(capacity),
        ensures
            r.0.is_opened(capacity, r.1),
    {
        let (tx, rx) = tokio::sync::mpsc::channel::<T>(capacity);
        (Producer { tx, log: Ghost(Seq::empty()) }, rx)
    }

    /// The subscriber is gone.
    pub fn is_closed(&self) -> (r: bool)
        ensures
            answers_open(self.sender(), !r),
    {
        self.tx.is_closed()
    }

    /// Hands `event` to the channel, once, if there is one.
    pub fn offer(&mut self, event: Option<T>) -> (r: Handoff<T>)
        ensures
            offered(*old(self), event, *final(self), r),
    {
        match event {
            Some(event) => {
                proof {
                    use_type_invariant(&*self);
                }
                let r = try_send(&self.tx, event);
                self.log = Ghost(self.log@.push((event, r)));
                r
            },
            None => Handoff::Nothing,
        }
    }
}

/// `r` is what becomes of `event` at the channel, which goes from `before` to
/// `after`. An event is handed over, and nothing else is: the channel takes it or
/// gives it back. Without one, nothing is handed over.
pub open spec fn offered<T>(
    before: Producer<T>,
    event: Option<T>,
    after: Producer<T>,
    r: Handoff<T>,
) -> bool {
    &&& after.sender() == before.sender()
    &&& match event {
        Some(event) => {
            &&& handed(before.sender(), event, r)
            &&& after.log() == before.log().push((event, r))
            &&& !(r is Nothing)
            &&& r.returned() is Some ==> r.returned() == Some(event)
        },
        None => r is Nothing && after.log() == before.log(),
    }
}

} // verus!
