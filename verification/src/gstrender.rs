//! The render dispatcher: the consumer's side of the render channel.
//!
//! The consumer thread is driven from outside: a callback is invoked
//! whenever a frame is due. On each invocation the dispatcher takes one
//! render message, the caller draws it, and the dispatcher then gives the
//! message back to the producer or drops it, as its policy says. The
//! dispatcher comes into being inside the first invocation, and only once:
//! `RenderSlot` is the cell that sees to that.

use crate::bidir::BidirChannel;
use crate::error::{relay, BrokerError};
use crate::texture::TextureDescription;
use vstd::prelude::*;

verus! {

/// One frame to draw: the two textures to draw with and the vertex data.
/// While the message is with the consumer the producer must neither reuse
/// nor release the two textures.
#[derive(Debug)]
pub struct GstRenderMessage<V> {
    pub image_texture: TextureDescription,
    pub lut_texture: TextureDescription,
    pub vertex_data: Vec<V>,
}

/// What becomes of a render message once it is drawn.
#[derive(Debug, Clone, Copy, PartialEq, Eq, Structural)]
pub enum ReplyPolicy {
    /// The message goes back to the producer, which may use its textures
    /// again. This is how the dispatcher is meant to be run.
    Return,
    /// The message is dropped. Its textures never come back, so the
    /// producer has to acquire new ones for every frame and the pool grows
    /// without bound.
    Drop,
}

/// The message that goes back to the producer under a policy, if any.
pub open spec fn returned<V>(policy: ReplyPolicy, message: GstRenderMessage<V>) -> Option<
    GstRenderMessage<V>,
> {
    match policy {
        ReplyPolicy::Return => Some(message),
        ReplyPolicy::Drop => None,
    }
}

/// Decides what goes back to the producer after a draw: under `Return` the
/// message itself, unchanged; under `Drop` nothing.
pub fn reply_for<V>(policy: ReplyPolicy, message: GstRenderMessage<V>) -> (reply: Option<
    GstRenderMessage<V>,
>)
    ensures
        reply == returned(policy, message),
{
    match policy {
        ReplyPolicy::Return => Some(message),
        ReplyPolicy::Drop => None,
    }
}

/// The consumer's endpoint of the render channel, with its policy.
#[verifier::reject_recursive_types(V)]
pub struct GstRenderStruct<V> {
    channel: BidirChannel<GstRenderMessage<V>>,
    policy: ReplyPolicy,
}

impl<V> GstRenderStruct<V> {
    /// The policy that the dispatcher was made with.
    pub closed spec fn reply_policy(&self) -> ReplyPolicy {
        self.policy
    }

    /// A dispatcher on the consumer's endpoint.
    pub fn new(channel: BidirChannel<GstRenderMessage<V>>, policy: ReplyPolicy) -> (dispatcher:
        Self)
        ensures
            dispatcher.reply_policy() == policy,
    {
        GstRenderStruct { channel, policy }
    }

    /// The dispatcher's policy.
    pub fn policy(&self) -> (policy: ReplyPolicy)
        ensures
            policy == self.reply_policy(),
    {
        self.policy
    }

    /// Waits for the next render message: the frame that the caller is to
    /// draw now. The only failure is `PeerClosed`.
    pub fn draw(&self) -> (result: Result<GstRenderMessage<V>, BrokerError>)
        ensures
            result matches Err(error) ==> error == BrokerError::PeerClosed,
    {
        relay(self.channel.recv())
    }

    /// Disposes of a message that was drawn, as the policy says (see
    /// `reply_for`). Under `Drop` nothing is sent and nothing can fail;
    /// under `Return` the only failure is `PeerClosed`.
    pub fn finish(&self, message: GstRenderMessage<V>) -> (result: Result<(), BrokerError>)
        ensures
            self.reply_policy() == ReplyPolicy::Drop ==> result is Ok,
            result matches Err(error) ==> error == BrokerError::PeerClosed,
    {
        match reply_for(self.policy, message) {
            Some(reply) => relay(self.channel.send(reply)),
            None => Ok(()),
        }
    }
}

/// The cell that holds the dispatcher: empty until the first invocation of
/// the consumer's callback, filled exactly once.
///
/// Until then the cell keeps the consumer's endpoint; construction hands the
/// endpoint to the dispatcher.
#[verifier::reject_recursive_types(V)]
pub struct RenderSlot<V> {
    endpoint: Option<BidirChannel<GstRenderMessage<V>>>,
    policy: ReplyPolicy,
    dispatcher: Option<GstRenderStruct<V>>,
}

impl<V> RenderSlot<V> {
    /// Whether the dispatcher was constructed.
    pub closed spec fn ready(&self) -> bool {
        self.dispatcher is Some
    }

    /// The policy that the dispatcher is, or will be, made with.
    pub closed spec fn reply_policy(&self) -> ReplyPolicy {
        self.policy
    }

    /// The cell's invariant: it holds either the endpoint or the dispatcher,
    /// never both and never neither, and the dispatcher has the cell's
    /// policy.
    pub closed spec fn wf(&self) -> bool {
        &&& self.endpoint is Some <==> self.dispatcher is None
        &&& self.dispatcher matches Some(dispatcher) ==> dispatcher.reply_policy() == self.policy
    }

    /// An empty cell that keeps `endpoint` for the dispatcher to come.
    pub fn new(endpoint: BidirChannel<GstRenderMessage<V>>, policy: ReplyPolicy) -> (slot: Self)
        ensures
            slot.wf(),
            !slot.ready(),
            slot.reply_policy() == policy,
    {
        RenderSlot { endpoint: Some(endpoint), policy, dispatcher: None }
    }

    /// Whether the dispatcher was constructed.
    pub fn is_ready(&self) -> (ready: bool)
        ensures
            ready == self.ready(),
    {
        self.dispatcher.is_some()
    }

    /// Constructs the dispatcher. This succeeds on an empty cell and fills
    /// it; on a filled cell it fails with `AlreadyInitialized` and changes
    /// nothing.
    pub fn construct(&mut self) -> (result: Result<(), BrokerError>)
        requires
            old(self).wf(),
        ensures
            final(self).wf(),
            final(self).ready(),
            final(self).reply_policy() == old(self).reply_policy(),
            result == if old(self).ready() {
                Err::<(), BrokerError>(BrokerError::AlreadyInitialized)
            } else {
                Ok::<(), BrokerError>(())
            },
    {
        match self.endpoint.take() {
            Some(endpoint) => {
                self.dispatcher = Some(GstRenderStruct::new(endpoint, self.policy));
                Ok(())
            },
            None => Err(BrokerError::AlreadyInitialized),
        }
    }

    /// The dispatcher, once it was constructed.
    pub fn dispatcher(&self) -> (dispatcher: Option<&GstRenderStruct<V>>)
        requires
            self.wf(),
        ensures
            dispatcher is Some <==> self.ready(),
            dispatcher matches Some(found) ==> found.reply_policy() == self.reply_policy(),
    {
        self.dispatcher.as_ref()
    }
}

} // verus!
