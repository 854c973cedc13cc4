//! The shareable context handle and the platform dispatch that produces it.

use crate::error::BrokerError;
use vstd::prelude::*;

verus! {

/// The raw handle of a freshly created GPU context, tagged by the platform
/// interface that made it. The handle itself is a word-sized opaque value.
#[derive(Debug, Clone, Copy, PartialEq, Eq, Structural)]
pub enum RawHandle {
    /// A WGL rendering context.
    Wgl(usize),
    /// An EGL context.
    Egl(usize),
}

/// The platforms whose contexts can be shared with the media framework.
#[derive(Debug, Clone, Copy, PartialEq, Eq, Structural)]
pub enum GlPlatform {
    Wgl,
}

/// A context handle in the form in which it is handed to the media
/// framework. It is passed on as it is and never looked into again.
#[derive(Debug, Clone, Copy, PartialEq, Eq, Structural)]
pub struct SharedContext {
    pub handle: usize,
    pub platform: GlPlatform,
}

/// What `share` returns: only WGL contexts can be shared, and their handle
/// is kept unchanged.
pub open spec fn shared(raw: RawHandle) -> Result<SharedContext, BrokerError> {
    match raw {
        RawHandle::Wgl(handle) => Ok(SharedContext { handle, platform: GlPlatform::Wgl }),
        RawHandle::Egl(_) => Err(BrokerError::UnsupportedPlatform),
    }
}

/// Resolves the platform tag of a raw handle, once, at start-up.
pub fn share(raw: RawHandle) -> (result: Result<SharedContext, BrokerError>)
    ensures
        result == shared(raw),
{
    match raw {
        RawHandle::Wgl(handle) => Ok(SharedContext { handle, platform: GlPlatform::Wgl }),
        RawHandle::Egl(_) => Err(BrokerError::UnsupportedPlatform),
    }
}

} // verus!
