//! The fan-out channel: one producer publishes a value once; every
//! subscriber registered before that sees its own copy of it.
//!
//! The buffering and delivery are those of `tokio::sync::broadcast`. How many
//! receivers are alive when a value is published is state that the channel
//! shares with every handle, so the contracts here speak of what is handed to
//! the channel and of what the library does with whatever comes back.

use tokio::sync::broadcast::error::SendError;
use tokio::sync::broadcast::{Receiver, Sender};
use vstd::prelude::*;

verus! {

/// The producing half of a `tokio::sync::broadcast` channel, opaque here.
#[verifier::external_type_specification]
#[verifier::external_body]
#[verifier::reject_recursive_types(T)]
pub struct ExSender<T>(Sender<T>);

/// A subscriber handle of a `tokio::sync::broadcast` channel, opaque here.
#[verifier::external_type_specification]
#[verifier::external_body]
#[verifier::reject_recursive_types(T)]
pub struct ExReceiver<T>(Receiver<T>);

/// The error of a send that found no subscriber, opaque here.
#[verifier::external_type_specification]
#[verifier::external_body]
#[verifier::reject_recursive_types(T)]
pub struct ExSendError<T>(SendError<T>);

/// Relies on `tokio::sync::broadcast::channel`, which panics on a capacity of
/// zero or above `usize::MAX >> 1` (that is, `usize::MAX / 2`).
pub assume_specification<T: Clone>[ tokio::sync::broadcast::channel::<T> ](capacity: usize) -> (
    Sender<T>,
    Receiver<T>,
)
    requires
        0 < capacity <= usize::MAX / 2,
;

/// Relies on `Sender::subscribe`: a fresh receiver whose cursor starts at the
/// channel's tail, so it sees only values sent after this call. It panics once
/// `usize::MAX >> 2` receivers are alive, more than a `Vec` of them can hold.
pub assume_specification<T>[ Sender::<T>::subscribe ](tx: &Sender<T>) -> Receiver<T>;

/// Relies on `Sender::send`: `Ok` carries the number of receivers that were
/// subscribed, which is never zero; with none, the value comes back as an error.
pub assume_specification<T>[ Sender::<T>::send ](tx: &Sender<T>, value: T) -> (r: Result<
    usize,
    SendError<T>,
>)
    ensures
        r is Ok ==> r->Ok_0 >= 1,
;

/// Why a non-blocking receive produced no value.
#[derive(Clone, Copy, Debug, PartialEq, Eq, Structural)]
pub enum ReceiveError {
    /// Nothing is pending, and a producer is still alive.
    Empty,
    /// The producer is gone and nothing is pending.
    Closed,
    /// The buffer overflowed before this subscriber read; the count says how
    /// many values it missed.
    Lagged(u64),
}

/// Relies on `Receiver::try_recv`, mapping its error variants one for one. It
/// reports a lag only when at least one value was missed.
#[verifier::external_body]
fn try_recv_mapped<T: Clone>(rx: &mut Receiver<T>) -> (r: Result<T, ReceiveError>)
    ensures
        r matches Err(ReceiveError::Lagged(n)) ==> n >= 1,
{
    match rx.try_recv() {
        Ok(v) => Ok(v),
        Err(tokio::sync::broadcast::error::TryRecvError::Empty) => Err(ReceiveError::Empty),
        Err(tokio::sync::broadcast::error::TryRecvError::Closed) => Err(ReceiveError::Closed),
        Err(tokio::sync::broadcast::error::TryRecvError::Lagged(n)) => Err(ReceiveError::Lagged(n)),
    }
}

/// The buffer capacity that the benchmark's channels are created with.
pub const CHANNEL_CAPACITY: usize = 10000;

/// The number of listeners that a send reports as served: the subscriber
/// count on success, zero when nobody was subscribed.
pub fn listeners_served<T>(outcome: Result<usize, SendError<T>>) -> (r: usize)
    ensures
        outcome is Ok ==> r == outcome->Ok_0,
        outcome is Err ==> r == 0,
{
    match outcome {
        Ok(n) => n,
        Err(_) => 0,
    }
}

/// The producing end of a fan-out channel.
#[verifier::reject_recursive_types(T)]
pub struct FanOut<T> {
    sender: Sender<T>,
}

impl<T: Clone> FanOut<T> {
    /// A channel that holds up to `capacity` values not yet read by a
    /// subscriber (rounded up to a power of two), with nobody subscribed yet.
    pub fn new(capacity: usize) -> (r: Self)
        requires
            0 < capacity <= usize::MAX / 2,
    {
        let (sender, _unused) = tokio::sync::broadcast::channel(capacity);
        FanOut { sender }
    }

    /// Registers a new subscriber, which will see every value published
    /// after this call.
    pub fn subscribe(&self) -> Receiver<T> {
        self.sender.subscribe()
    }

    /// Publishes `value` to every live subscriber and returns how many there
    /// were (zero, with the value dropped, when there were none).
    pub fn publish(&self, value: T) -> (r: usize) {
        listeners_served(self.sender.send(value))
    }
}

/// Takes the next value pending for `rx` without waiting. A lag error counts
/// at least one missed value.
pub fn receive_now<T: Clone>(rx: &mut Receiver<T>) -> (r: Result<T, ReceiveError>)
    ensures
        r matches Err(ReceiveError::Lagged(n)) ==> n >= 1,
{
    try_recv_mapped(rx)
}

/// Subscribes `times` receivers to a fresh channel, then publishes
/// `event_data` once. Returns the receivers, in the order they subscribed,
/// and the number of listeners that the publication reported. With nobody
/// subscribed there is nobody to serve, and the count is zero.
pub fn broadcast_base<T: Clone>(event_data: T, times: usize) -> (r: (Vec<Receiver<T>>, usize))
    ensures
        r.0@.len() == times,
        times == 0 ==> r.1 == 0,
{
    let channel: FanOut<T> = FanOut::new(CHANNEL_CAPACITY);
    let mut receivers: Vec<Receiver<T>> = Vec::new();
    let mut a: usize = 0;
    while a < times
        invariant
            a <= times,
            receivers@.len() == a,
        decreases times - a,
    {
        receivers.push(channel.subscribe());
        a += 1;
    }
    let served = if times == 0 {
        0
    } else {
        channel.publish(event_data)
    };
    (receivers, served)
}

} // verus!
