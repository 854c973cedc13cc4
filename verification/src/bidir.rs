//! A two-ended, symmetric message pipe between exactly two threads.
//!
//! Each endpoint owns the sending half of one queue and the receiving half of
//! the other, so the two directions are independent first-in, first-out
//! queues. What an operation returns depends on what the peer thread has done
//! so far, so the contracts here state only what holds of every outcome.

use vstd::prelude::*;

verus! {

#[verifier::external_type_specification]
#[verifier::external_body]
#[verifier::reject_recursive_types(T)]
pub struct ExSender<T>(std::sync::mpsc::Sender<T>);

#[verifier::external_type_specification]
#[verifier::external_body]
#[verifier::reject_recursive_types(T)]
pub struct ExReceiver<T>(std::sync::mpsc::Receiver<T>);

/// Why an operation on an endpoint delivered nothing.
#[derive(Debug, Clone, Copy, PartialEq, Eq, Structural)]
pub enum ChannelError {
    /// The peer endpoint was dropped.
    PeerClosed,
    /// Nothing is queued right now.
    Empty,
}

/// One endpoint of a duplex channel that carries messages of type `M` both ways.
#[verifier::reject_recursive_types(M)]
pub struct BidirChannel<M> {
    sender: std::sync::mpsc::Sender<M>,
    receiver: std::sync::mpsc::Receiver<M>,
}

/// `std::sync::mpsc::channel`: a fresh queue, as its sending and its
/// receiving half. Nothing is claimed of the two halves.
#[verifier::external_body]
fn queue<M>() -> (halves: (std::sync::mpsc::Sender<M>, std::sync::mpsc::Receiver<M>)) {
    std::sync::mpsc::channel()
}

/// `std::sync::mpsc::Sender::send`: enqueues without blocking. It fails only
/// when the receiving half is gone, and then hands back the very message it
/// was given.
#[verifier::external_body]
fn enqueue<M>(sender: &std::sync::mpsc::Sender<M>, message: M) -> (outcome: Result<(), M>)
    ensures
        outcome matches Err(returned) ==> returned == message,
{
    match sender.send(message) {
        Ok(()) => Ok(()),
        Err(std::sync::mpsc::SendError(returned)) => Err(returned),
    }
}

/// `std::sync::mpsc::Receiver::recv`: suspends until a message arrives or the
/// sending half is gone and the queue is drained; only the latter fails.
/// Nothing is claimed of the message.
#[verifier::external_body]
fn dequeue<M>(receiver: &std::sync::mpsc::Receiver<M>) -> (outcome: Option<M>) {
    match receiver.recv() {
        Ok(message) => Some(message),
        Err(std::sync::mpsc::RecvError) => None,
    }
}

/// `std::sync::mpsc::Receiver::try_recv`: never suspends. Its two failures
/// are told apart: nothing queued, or nothing queued and the sending half
/// gone. Nothing is claimed of which outcome comes.
#[verifier::external_body]
fn poll<M>(receiver: &std::sync::mpsc::Receiver<M>) -> (outcome: Result<M, ChannelError>) {
    match receiver.try_recv() {
        Ok(message) => Ok(message),
        Err(std::sync::mpsc::TryRecvError::Empty) => Err(ChannelError::Empty),
        Err(std::sync::mpsc::TryRecvError::Disconnected) => Err(ChannelError::PeerClosed),
    }
}

/// What `send` reports for each outcome of the queue.
pub fn sent<M>(outcome: Result<(), M>) -> (result: Result<(), ChannelError>)
    ensures
        result == match outcome {
            Ok(()) => Ok::<(), ChannelError>(()),
            Err(_) => Err::<(), ChannelError>(ChannelError::PeerClosed),
        },
{
    match outcome {
        Ok(()) => Ok(()),
        Err(_) => Err(ChannelError::PeerClosed),
    }
}

/// What `recv` reports for each outcome of the queue.
pub fn received<M>(outcome: Option<M>) -> (result: Result<M, ChannelError>)
    ensures
        result == match outcome {
            Some(message) => Ok::<M, ChannelError>(message),
            None => Err::<M, ChannelError>(ChannelError::PeerClosed),
        },
{
    match outcome {
        Some(message) => Ok(message),
        None => Err(ChannelError::PeerClosed),
    }
}

impl<M> BidirChannel<M> {
    /// Creates the two endpoints of one channel: what either sends, the
    /// other receives.
    pub fn new_pair() -> (pair: (Self, Self)) {
        let (first_sender, second_receiver) = queue();
        let (second_sender, first_receiver) = queue();
        (
            Self { sender: first_sender, receiver: first_receiver },
            Self { sender: second_sender, receiver: second_receiver },
        )
    }

    /// Enqueues `message` for the peer without blocking.
    ///
    /// The only failure is `PeerClosed`: the peer endpoint was dropped.
    pub fn send(&self, message: M) -> (result: Result<(), ChannelError>)
        ensures
            result is Err ==> result == Err::<(), ChannelError>(ChannelError::PeerClosed),
    {
        sent(enqueue(&self.sender, message))
    }

    /// Suspends until the peer's next message arrives.
    ///
    /// The only failure is `PeerClosed`: the peer endpoint was dropped and
    /// nothing is left in the queue.
    pub fn recv(&self) -> (result: Result<M, ChannelError>)
        ensures
            result matches Err(error) ==> error == ChannelError::PeerClosed,
    {
        received(dequeue(&self.receiver))
    }

    /// Takes the peer's next message if one is queued, and returns at once
    /// either way: `Empty` when nothing is queued, `PeerClosed` when in
    /// addition the peer endpoint was dropped.
    pub fn try_recv(&self) -> (result: Result<M, ChannelError>) {
        poll(&self.receiver)
    }
}

} // verus!
