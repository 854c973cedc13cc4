//! The producer's side of the broker: requests sent over the broker's
//! channel, and the replies to them.
//!
//! Whether a request reaches the worker, and what comes back, is decided on
//! the other thread. The functions that build a request (`context_request`,
//! `activation_request`, `acquire_request`, `lut_request`, `flush_request`,
//! `release_request`, `load_request`) and those that read a reply
//! (`context_reply`, `texture_reply`) are exact; each method of
//! `ThreadUploader` sends what its builder made, reads the reply with its
//! reader, and says what holds whatever the channel did.

use crate::bidir::BidirChannel;
use crate::context::SharedContext;
use crate::error::{relay, BrokerError};
use crate::texture::{
    LoadDescription, TextureDescription, TextureHandle, TextureType, UploaderMessage,
};
use vstd::prelude::*;

verus! {

/// The width that every lookup table is requested and loaded with.
pub const LUT_TEXTURE_WIDTH: usize = 256;

/// The height that every lookup table is requested and loaded with.
pub const LUT_TEXTURE_HEIGHT: usize = 256;

/// What a reply to `GetContext` amounts to: the context it carries, and a
/// `ContextHandshakeViolation` for any other message.
pub open spec fn context_of(reply: UploaderMessage) -> Result<SharedContext, BrokerError> {
    match reply {
        UploaderMessage::Context(context) => Ok(context),
        _ => Err(BrokerError::ContextHandshakeViolation),
    }
}

/// What a reply to `AcquireTexture` for `kind` amounts to: the texture it
/// carries, described as one of `kind`, or none; and `UnexpectedMessage` for
/// any other message.
pub open spec fn texture_of(kind: TextureType, reply: UploaderMessage) -> Result<
    Option<TextureDescription>,
    BrokerError,
> {
    match reply {
        UploaderMessage::Texture(Some(handle)) => Ok(Some(TextureDescription { handle, kind })),
        UploaderMessage::Texture(None) => Ok(None),
        _ => Err(BrokerError::UnexpectedMessage),
    }
}

/// The request that uploads `data` to a region of `width` by `height` of a
/// texture that must be of `kind`, or why there is none: `ClassMismatch`
/// for a texture of the other class, else `CapacityMismatch` when the region
/// exceeds the texture or `data` is not exactly as long as the region's area.
pub open spec fn load_request_of(
    texture: TextureDescription,
    kind: TextureType,
    width: usize,
    height: usize,
    data: Vec<u16>,
) -> Result<UploaderMessage, BrokerError> {
    if texture.kind != kind {
        Err(BrokerError::ClassMismatch)
    } else if !texture.handle.admits(width as nat, height as nat, data@.len()) {
        Err(BrokerError::CapacityMismatch)
    } else {
        Ok(
            UploaderMessage::LoadData(
                LoadDescription { texture: texture.handle, width, height, data },
            ),
        )
    }
}

/// The request for the shareable context handle.
pub fn context_request() -> (message: UploaderMessage)
    ensures
        message == UploaderMessage::GetContext,
{
    UploaderMessage::GetContext
}

/// The request to make the worker's context current and to start serving.
pub fn activation_request() -> (message: UploaderMessage)
    ensures
        message == UploaderMessage::SetContextCurrent,
{
    UploaderMessage::SetContextCurrent
}

/// The request for the lease of a texture of `kind` that covers `width` by
/// `height`. The size goes out as it is given; rounding it to a bucket is
/// the pool's business.
pub fn acquire_request(kind: TextureType, width: usize, height: usize) -> (message: UploaderMessage)
    ensures
        message == UploaderMessage::AcquireTexture(kind, width, height),
{
    UploaderMessage::AcquireTexture(kind, width, height)
}

/// The request for the lease of a lookup-table texture: class `Lut`, and
/// the one size that lookup tables have.
pub fn lut_request() -> (message: UploaderMessage)
    ensures
        message == UploaderMessage::AcquireTexture(
            TextureType::Lut,
            LUT_TEXTURE_WIDTH,
            LUT_TEXTURE_HEIGHT,
        ),
{
    acquire_request(TextureType::Lut, LUT_TEXTURE_WIDTH, LUT_TEXTURE_HEIGHT)
}

/// The request to submit the pending GPU commands.
pub fn flush_request() -> (message: UploaderMessage)
    ensures
        message == UploaderMessage::Flush,
{
    UploaderMessage::Flush
}

/// The request to end the lease of `texture`.
pub fn release_request(texture: TextureHandle) -> (message: UploaderMessage)
    ensures
        message == UploaderMessage::ReleaseTexture(texture),
{
    UploaderMessage::ReleaseTexture(texture)
}

/// Reads the reply to `GetContext`.
pub fn context_reply(reply: UploaderMessage) -> (result: Result<SharedContext, BrokerError>)
    ensures
        result == context_of(reply),
{
    match reply {
        UploaderMessage::Context(context) => Ok(context),
        _ => Err(BrokerError::ContextHandshakeViolation),
    }
}

/// Reads the reply to `AcquireTexture` for a texture of `kind`.
pub fn texture_reply(kind: TextureType, reply: UploaderMessage) -> (result: Result<
    Option<TextureDescription>,
    BrokerError,
>)
    ensures
        result == texture_of(kind, reply),
{
    match reply {
        UploaderMessage::Texture(Some(handle)) => Ok(Some(TextureDescription { handle, kind })),
        UploaderMessage::Texture(None) => Ok(None),
        _ => Err(BrokerError::UnexpectedMessage),
    }
}

/// Builds the request that uploads `data`, after checking the texture's
/// class and capacity.
pub fn load_request(
    texture: &TextureDescription,
    kind: TextureType,
    width: usize,
    height: usize,
    data: Vec<u16>,
) -> (result: Result<UploaderMessage, BrokerError>)
    ensures
        result == load_request_of(*texture, kind, width, height, data),
{
    let same_class = match (texture.kind, kind) {
        (TextureType::Mono, TextureType::Mono) => true,
        (TextureType::Lut, TextureType::Lut) => true,
        _ => false,
    };
    if !same_class {
        Err(BrokerError::ClassMismatch)
    } else if !texture.handle.accepts(width, height, data.len()) {
        Err(BrokerError::CapacityMismatch)
    } else {
        Ok(
            UploaderMessage::LoadData(
                LoadDescription { texture: texture.handle, width, height, data },
            ),
        )
    }
}

/// The producer's handle on the broker. It is meant for one thread: a
/// request and its reply are matched by order alone.
pub struct ThreadUploader {
    channel: BidirChannel<UploaderMessage>,
}

impl ThreadUploader {
    /// Creates the broker's channel. The uploader keeps one endpoint; the
    /// other is for the worker thread.
    pub fn new() -> (pair: (Self, BidirChannel<UploaderMessage>)) {
        let (mine, other) = BidirChannel::new_pair();
        (ThreadUploader { channel: mine }, other)
    }

    fn request(&self, message: UploaderMessage) -> (result: Result<(), BrokerError>)
        ensures
            result matches Err(error) ==> error == BrokerError::PeerClosed,
    {
        relay(self.channel.send(message))
    }

    fn reply(&self) -> (result: Result<UploaderMessage, BrokerError>)
        ensures
            result matches Err(error) ==> error == BrokerError::PeerClosed,
    {
        relay(self.channel.recv())
    }

    /// Sends a request and waits for the reply to it.
    fn exchange(&self, request: UploaderMessage) -> (result: Result<UploaderMessage, BrokerError>)
        ensures
            result matches Err(error) ==> error == BrokerError::PeerClosed,
    {
        match self.request(request) {
            Ok(()) => self.reply(),
            Err(error) => Err(error),
        }
    }

    /// Sends a request for a texture of `kind` and reads the reply to it.
    fn acquire(&self, kind: TextureType, request: UploaderMessage) -> (result: Result<
        Option<TextureDescription>,
        BrokerError,
    >)
        ensures
            result == Err::<Option<TextureDescription>, BrokerError>(BrokerError::PeerClosed)
                || exists|reply: UploaderMessage| result == texture_of(kind, reply),
    {
        match self.exchange(request) {
            Ok(reply) => texture_reply(kind, reply),
            Err(error) => Err(error),
        }
    }

    /// Sends `context_request()` and waits for the worker's reply, which is
    /// read by `context_reply`: the context that the worker sent comes back
    /// as it is.
    ///
    /// Fails with `PeerClosed` when the worker is gone, and with
    /// `ContextHandshakeViolation` when the worker answers with anything but
    /// a context.
    pub fn get_shared_context(&self) -> (result: Result<SharedContext, BrokerError>)
        ensures
            result == Err::<SharedContext, BrokerError>(BrokerError::PeerClosed) || exists|
                reply: UploaderMessage,
            | result == context_of(reply),
            result matches Err(error) ==> error == BrokerError::PeerClosed || error
                == BrokerError::ContextHandshakeViolation,
    {
        match self.exchange(context_request()) {
            Ok(reply) => context_reply(reply),
            Err(error) => Err(error),
        }
    }

    /// Sends `activation_request()`: the worker is to make its context
    /// current and to start serving. There is no reply to wait for.
    pub fn set_current(&self) -> (result: Result<(), BrokerError>)
        ensures
            result matches Err(error) ==> error == BrokerError::PeerClosed,
    {
        self.request(activation_request())
    }

    /// Sends `acquire_request(Mono, width, height)` for `size` (width,
    /// height) and waits for the worker's reply, which is read by
    /// `texture_reply`: the texture that the worker granted, described as an
    /// image texture, or none when none is available.
    ///
    /// Fails with `PeerClosed` when the worker is gone, and with
    /// `UnexpectedMessage` when the worker answers with anything but a
    /// texture reply.
    pub fn acquire_image_handle(&self, size: (usize, usize)) -> (result: Result<
        Option<TextureDescription>,
        BrokerError,
    >)
        ensures
            result == Err::<Option<TextureDescription>, BrokerError>(BrokerError::PeerClosed)
                || exists|reply: UploaderMessage| result == texture_of(TextureType::Mono, reply),
            result matches Ok(Some(texture)) ==> texture.kind == TextureType::Mono,
            result matches Err(error) ==> error == BrokerError::PeerClosed || error
                == BrokerError::UnexpectedMessage,
    {
        self.acquire(TextureType::Mono, acquire_request(TextureType::Mono, size.0, size.1))
    }

    /// Sends `lut_request()` and waits for the worker's reply, which is read
    /// by `texture_reply`: the texture that the worker granted, described as
    /// a lookup-table texture, or none. It fails as `acquire_image_handle`
    /// does.
    pub fn acquire_lut_handle(&self) -> (result: Result<Option<TextureDescription>, BrokerError>)
        ensures
            result == Err::<Option<TextureDescription>, BrokerError>(BrokerError::PeerClosed)
                || exists|reply: UploaderMessage| result == texture_of(TextureType::Lut, reply),
            result matches Ok(Some(texture)) ==> texture.kind == TextureType::Lut,
            result matches Err(error) ==> error == BrokerError::PeerClosed || error
                == BrokerError::UnexpectedMessage,
    {
        self.acquire(TextureType::Lut, lut_request())
    }

    fn load_texture(
        &self,
        texture: &TextureDescription,
        kind: TextureType,
        width: usize,
        height: usize,
        data: Vec<u16>,
    ) -> (result: Result<(), BrokerError>)
        ensures
            match load_request_of(*texture, kind, width, height, data) {
                Ok(_) => result is Ok || result == Err::<(), BrokerError>(BrokerError::PeerClosed),
                Err(error) => result == Err::<(), BrokerError>(error),
            },
    {
        match load_request(texture, kind, width, height, data) {
            Ok(message) => self.request(message),
            Err(error) => Err(error),
        }
    }

    /// Sends `data` for a region of `size` (width, height) of an image
    /// texture. Nothing is sent unless the texture is an image texture, the
    /// region lies within it and `data` holds exactly one sample for each of
    /// the region's pixels (see `load_request_of`); then the only failure
    /// left is `PeerClosed`.
    pub fn load_image(&self, texture: &TextureDescription, size: (usize, usize), data: Vec<u16>) -> (result:
        Result<(), BrokerError>)
        ensures
            match load_request_of(*texture, TextureType::Mono, size.0, size.1, data) {
                Ok(_) => result is Ok || result == Err::<(), BrokerError>(BrokerError::PeerClosed),
                Err(error) => result == Err::<(), BrokerError>(error),
            },
    {
        self.load_texture(texture, TextureType::Mono, size.0, size.1, data)
    }

    /// Sends `data` for a whole lookup table. Nothing is sent unless the
    /// texture is a lookup-table texture that holds a table and `data` has
    /// the table's length; then the only failure left is `PeerClosed`.
    pub fn load_lut(&self, texture: &TextureDescription, data: Vec<u16>) -> (result: Result<
        (),
        BrokerError,
    >)
        ensures
            match load_request_of(
                *texture,
                TextureType::Lut,
                LUT_TEXTURE_WIDTH,
                LUT_TEXTURE_HEIGHT,
                data,
            ) {
                Ok(_) => result is Ok || result == Err::<(), BrokerError>(BrokerError::PeerClosed),
                Err(error) => result == Err::<(), BrokerError>(error),
            },
    {
        self.load_texture(texture, TextureType::Lut, LUT_TEXTURE_WIDTH, LUT_TEXTURE_HEIGHT, data)
    }

    /// Sends `flush_request()`: the worker is to submit its pending GPU
    /// commands. There is no reply to wait for.
    pub fn flush(&self) -> (result: Result<(), BrokerError>)
        ensures
            result matches Err(error) ==> error == BrokerError::PeerClosed,
    {
        self.request(flush_request())
    }

    /// Sends `release_request(texture)`: the lease of `texture` ends. There
    /// is no reply to wait for.
    pub fn release_texture(&self, texture: TextureHandle) -> (result: Result<(), BrokerError>)
        ensures
            result matches Err(error) ==> error == BrokerError::PeerClosed,
    {
        self.request(release_request(texture))
    }
}

} // verus!
