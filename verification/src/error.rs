//! The ways in which the broker's protocol can be broken.

use crate::bidir::ChannelError;
use vstd::prelude::*;

verus! {

/// A violation of the protocol between producer, broker and consumer.
///
/// Each of them shows that a party did not follow the protocol, so none is
/// meant to be recovered from: the thread that meets one stops. Running out
/// of textures is no error and is not listed here.
#[derive(Debug, Clone, Copy, PartialEq, Eq, Structural)]
pub enum BrokerError {
    /// The partner on a channel is gone.
    PeerClosed,
    /// An upload is larger than the texture, or its length is not its area;
    /// or a texture of the requested size cannot exist on this machine.
    CapacityMismatch,
    /// A texture that is already in the pool was offered to it again, or a
    /// second buffer for a bucket that the pool already serves.
    DoubleLease,
    /// A release named a texture that is not leased.
    ReleaseOfFreeTexture,
    /// The raw context handle carries a platform tag that cannot be shared.
    UnsupportedPlatform,
    /// During the handshake something arrived out of order.
    ContextHandshakeViolation,
    /// The render dispatcher was constructed a second time.
    AlreadyInitialized,
    /// After the handshake a message arrived that its receiver does not
    /// serve, or a reply of the wrong kind.
    UnexpectedMessage,
    /// A texture of one class was used where the other class is required.
    ClassMismatch,
}

/// What the end of a send or of a blocking receive means to the protocol:
/// what was delivered stays as it is, and a failure, which on these two
/// operations can only be the loss of the peer, is `PeerClosed`.
pub open spec fn relayed<T>(outcome: Result<T, ChannelError>) -> Result<T, BrokerError> {
    match outcome {
        Ok(value) => Ok(value),
        Err(_) => Err(BrokerError::PeerClosed),
    }
}

/// Turns the outcome of a send or of a blocking receive into the protocol's
/// terms.
pub fn relay<T>(outcome: Result<T, ChannelError>) -> (result: Result<T, BrokerError>)
    ensures
        result == relayed(outcome),
{
    match outcome {
        Ok(value) => Ok(value),
        Err(_) => Err(BrokerError::PeerClosed),
    }
}

} // verus!
