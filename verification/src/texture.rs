//! Texture handles and the messages of the broker's protocol.

use crate::context::SharedContext;
use vstd::prelude::*;

verus! {

/// The two classes of texture. Each class has its own list in the pool,
/// because the classes differ in filtering and in the sizes they ask for.
#[derive(Debug, Clone, Copy, PartialEq, Eq, Structural)]
pub enum TextureType {
    /// Single-channel image data.
    Mono,
    /// A lookup table.
    Lut,
}

/// A GPU buffer as seen from outside the pool: its identifier and the
/// capacity it was allocated with. A handle is a value; holding one confers
/// no ownership.
#[derive(Debug, Clone, Copy, PartialEq, Eq, Structural)]
pub struct TextureHandle {
    pub id: u32,
    pub width: usize,
    pub height: usize,
}

/// A handle together with the class it was acquired for.
#[derive(Debug, Clone, Copy, PartialEq, Eq, Structural)]
pub struct TextureDescription {
    pub handle: TextureHandle,
    pub kind: TextureType,
}

/// Pixel data for a region of a texture: 16-bit samples, row by row, with
/// no padding.
#[derive(Debug, PartialEq, Eq)]
pub struct LoadDescription {
    pub texture: TextureHandle,
    pub width: usize,
    pub height: usize,
    pub data: Vec<u16>,
}

/// What travels over the broker's channel, in either direction.
#[derive(Debug, PartialEq, Eq)]
pub enum UploaderMessage {
    /// Request: hand out the shareable context handle.
    GetContext,
    /// Request: make the worker's context current and start serving.
    SetContextCurrent,
    /// Reply to `GetContext`.
    Context(SharedContext),
    /// Request: upload pixel data. No reply.
    LoadData(LoadDescription),
    /// Reply to `AcquireTexture`: a leased texture, or none available.
    Texture(Option<TextureHandle>),
    /// Request: lease a texture of a class that covers width and height.
    AcquireTexture(TextureType, usize, usize),
    /// Request: end the lease of a texture. No reply.
    ReleaseTexture(TextureHandle),
    /// Request: submit pending GPU commands. No reply.
    Flush,
    /// A party reports why it gives up.
    Fail(String),
}

impl TextureHandle {
    /// Whether a region of the given size lies within the handle's capacity.
    pub open spec fn covers(self, width: nat, height: nat) -> bool {
        width <= self.width && height <= self.height
    }

    /// Whether `len` samples for a region of the given size may be uploaded:
    /// the region lies within the capacity and `len` is exactly its area.
    pub open spec fn admits(self, width: nat, height: nat, len: nat) -> bool {
        self.covers(width, height) && len == width * height
    }

    /// Decides whether an upload of `len` samples for a region of `width` by
    /// `height` is acceptable.
    pub fn accepts(&self, width: usize, height: usize, len: usize) -> (ok: bool)
        ensures
            ok == self.admits(width as nat, height as nat, len as nat),
    {
        if width > self.width || height > self.height {
            return false;
        }
        match width.checked_mul(height) {
            Some(area) => area == len,
            None => false,
        }
    }
}

} // verus!
