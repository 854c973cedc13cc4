use texture_broker::context::{share, GlPlatform, RawHandle, SharedContext};
use texture_broker::error::BrokerError;

#[test]
fn a_wgl_handle_is_shared_unchanged() {
    assert_eq!(
        share(RawHandle::Wgl(0xdead_beef)),
        Ok(SharedContext { handle: 0xdead_beef, platform: GlPlatform::Wgl })
    );
    assert_eq!(share(RawHandle::Wgl(0)), Ok(SharedContext { handle: 0, platform: GlPlatform::Wgl }));
    assert_eq!(
        share(RawHandle::Wgl(usize::MAX)),
        Ok(SharedContext { handle: usize::MAX, platform: GlPlatform::Wgl })
    );
}

#[test]
fn an_egl_handle_is_an_unsupported_platform() {
    assert_eq!(share(RawHandle::Egl(0xdead_beef)), Err(BrokerError::UnsupportedPlatform));
    assert_eq!(share(RawHandle::Egl(0)), Err(BrokerError::UnsupportedPlatform));
}
