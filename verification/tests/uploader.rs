use texture_broker::bidir::ChannelError;
use texture_broker::context::{GlPlatform, SharedContext};
use texture_broker::error::BrokerError;
use texture_broker::texture::{
    LoadDescription, TextureDescription, TextureHandle, TextureType, UploaderMessage,
};
use texture_broker::uploader::{
    acquire_request, activation_request, context_reply, context_request, flush_request,
    load_request, lut_request, release_request, texture_reply, ThreadUploader,
};

fn image(id: u32, side: usize) -> TextureDescription {
    TextureDescription { handle: TextureHandle { id, width: side, height: side }, kind: TextureType::Mono }
}

fn lut(id: u32, side: usize) -> TextureDescription {
    TextureDescription { handle: TextureHandle { id, width: side, height: side }, kind: TextureType::Lut }
}

#[test]
fn context_reply_takes_a_context_only() {
    let context = SharedContext { handle: 9, platform: GlPlatform::Wgl };
    assert_eq!(context_reply(UploaderMessage::Context(context)), Ok(context));
    assert_eq!(context_reply(UploaderMessage::Texture(None)), Err(BrokerError::ContextHandshakeViolation));
    assert_eq!(context_reply(UploaderMessage::GetContext), Err(BrokerError::ContextHandshakeViolation));
    assert_eq!(
        context_reply(UploaderMessage::Fail(String::from("no"))),
        Err(BrokerError::ContextHandshakeViolation)
    );
}

#[test]
fn texture_reply_describes_the_texture_with_its_class() {
    let handle = TextureHandle { id: 4, width: 256, height: 256 };
    assert_eq!(
        texture_reply(TextureType::Mono, UploaderMessage::Texture(Some(handle))),
        Ok(Some(TextureDescription { handle, kind: TextureType::Mono }))
    );
    assert_eq!(
        texture_reply(TextureType::Lut, UploaderMessage::Texture(Some(handle))),
        Ok(Some(TextureDescription { handle, kind: TextureType::Lut }))
    );
    assert_eq!(texture_reply(TextureType::Mono, UploaderMessage::Texture(None)), Ok(None));
    assert_eq!(texture_reply(TextureType::Mono, UploaderMessage::Flush), Err(BrokerError::UnexpectedMessage));
    assert_eq!(
        texture_reply(
            TextureType::Mono,
            UploaderMessage::Context(SharedContext { handle: 9, platform: GlPlatform::Wgl })
        ),
        Err(BrokerError::UnexpectedMessage)
    );
}

#[test]
fn load_request_checks_class_then_capacity() {
    assert_eq!(
        load_request(&image(1, 4), TextureType::Mono, 2, 3, vec![1, 2, 3, 4, 5, 6]),
        Ok(UploaderMessage::LoadData(LoadDescription {
            texture: TextureHandle { id: 1, width: 4, height: 4 },
            width: 2,
            height: 3,
            data: vec![1, 2, 3, 4, 5, 6]
        }))
    );
    assert_eq!(
        load_request(&lut(1, 4), TextureType::Mono, 2, 3, vec![0; 6]),
        Err(BrokerError::ClassMismatch)
    );
    assert_eq!(
        load_request(&image(1, 4), TextureType::Lut, 2, 3, vec![0; 6]),
        Err(BrokerError::ClassMismatch)
    );
    assert_eq!(
        load_request(&lut(1, 4), TextureType::Mono, 5, 5, vec![0; 1]),
        Err(BrokerError::ClassMismatch)
    );
    assert_eq!(
        load_request(&image(1, 4), TextureType::Mono, 5, 1, vec![0; 5]),
        Err(BrokerError::CapacityMismatch)
    );
    assert_eq!(
        load_request(&image(1, 4), TextureType::Mono, 2, 3, vec![0; 5]),
        Err(BrokerError::CapacityMismatch)
    );
}

#[test]
fn the_uploader_asks_for_the_context_and_reads_the_reply() {
    let (uploader, worker) = ThreadUploader::new();
    let context = SharedContext { handle: 77, platform: GlPlatform::Wgl };
    assert_eq!(worker.send(UploaderMessage::Context(context)), Ok(()));
    assert_eq!(uploader.get_shared_context(), Ok(context));
    assert_eq!(worker.try_recv(), Ok(UploaderMessage::GetContext));
    assert_eq!(worker.try_recv(), Err(ChannelError::Empty));
}

#[test]
fn a_wrong_reply_to_get_context_is_a_handshake_violation() {
    let (uploader, worker) = ThreadUploader::new();
    assert_eq!(worker.send(UploaderMessage::Texture(None)), Ok(()));
    assert_eq!(uploader.get_shared_context(), Err(BrokerError::ContextHandshakeViolation));
}

#[test]
fn the_uploader_asks_for_an_image_texture_of_the_given_size() {
    let (uploader, worker) = ThreadUploader::new();
    let handle = TextureHandle { id: 4, width: 256, height: 256 };
    assert_eq!(worker.send(UploaderMessage::Texture(Some(handle))), Ok(()));
    assert_eq!(
        uploader.acquire_image_handle((200, 100)),
        Ok(Some(TextureDescription { handle, kind: TextureType::Mono }))
    );
    assert_eq!(worker.try_recv(), Ok(UploaderMessage::AcquireTexture(TextureType::Mono, 200, 100)));
    assert_eq!(worker.send(UploaderMessage::Texture(None)), Ok(()));
    assert_eq!(uploader.acquire_image_handle((256, 256)), Ok(None));
    assert_eq!(worker.try_recv(), Ok(UploaderMessage::AcquireTexture(TextureType::Mono, 256, 256)));
}

#[test]
fn the_uploader_asks_for_a_lut_texture_of_the_table_size() {
    let (uploader, worker) = ThreadUploader::new();
    let handle = TextureHandle { id: 5, width: 256, height: 256 };
    assert_eq!(worker.send(UploaderMessage::Texture(Some(handle))), Ok(()));
    assert_eq!(
        uploader.acquire_lut_handle(),
        Ok(Some(TextureDescription { handle, kind: TextureType::Lut }))
    );
    assert_eq!(worker.try_recv(), Ok(UploaderMessage::AcquireTexture(TextureType::Lut, 256, 256)));
}

#[test]
fn a_wrong_reply_to_an_acquisition_is_an_unexpected_message() {
    let (uploader, worker) = ThreadUploader::new();
    assert_eq!(worker.send(UploaderMessage::Flush), Ok(()));
    assert_eq!(uploader.acquire_image_handle((1, 1)), Err(BrokerError::UnexpectedMessage));
    assert_eq!(worker.send(UploaderMessage::GetContext), Ok(()));
    assert_eq!(uploader.acquire_lut_handle(), Err(BrokerError::UnexpectedMessage));
}

#[test]
fn the_uploader_sends_what_it_is_asked_to() {
    let (uploader, worker) = ThreadUploader::new();
    let handle = TextureHandle { id: 4, width: 256, height: 256 };
    assert_eq!(uploader.set_current(), Ok(()));
    assert_eq!(uploader.flush(), Ok(()));
    assert_eq!(uploader.release_texture(handle), Ok(()));
    assert_eq!(worker.recv(), Ok(UploaderMessage::SetContextCurrent));
    assert_eq!(worker.recv(), Ok(UploaderMessage::Flush));
    assert_eq!(worker.recv(), Ok(UploaderMessage::ReleaseTexture(handle)));
    assert_eq!(worker.try_recv(), Err(ChannelError::Empty));
}

#[test]
fn load_image_sends_the_pixels_of_a_region() {
    let (uploader, worker) = ThreadUploader::new();
    assert_eq!(uploader.load_image(&image(4, 4), (2, 3), vec![1, 2, 3, 4, 5, 6]), Ok(()));
    assert_eq!(
        worker.try_recv(),
        Ok(UploaderMessage::LoadData(LoadDescription {
            texture: TextureHandle { id: 4, width: 4, height: 4 },
            width: 2,
            height: 3,
            data: vec![1, 2, 3, 4, 5, 6]
        }))
    );
}

#[test]
fn load_image_rejects_what_does_not_fit_and_sends_nothing() {
    let (uploader, worker) = ThreadUploader::new();
    assert_eq!(uploader.load_image(&image(4, 4), (5, 1), vec![0; 5]), Err(BrokerError::CapacityMismatch));
    assert_eq!(uploader.load_image(&image(4, 4), (1, 5), vec![0; 5]), Err(BrokerError::CapacityMismatch));
    assert_eq!(uploader.load_image(&image(4, 4), (2, 3), vec![0; 5]), Err(BrokerError::CapacityMismatch));
    assert_eq!(uploader.load_image(&image(4, 4), (2, 3), vec![0; 7]), Err(BrokerError::CapacityMismatch));
    assert_eq!(uploader.load_image(&lut(4, 4), (2, 3), vec![0; 6]), Err(BrokerError::ClassMismatch));
    assert_eq!(worker.try_recv(), Err(ChannelError::Empty));
}

#[test]
fn load_lut_sends_a_whole_table() {
    let (uploader, worker) = ThreadUploader::new();
    assert_eq!(uploader.load_lut(&lut(5, 256), vec![3; 65536]), Ok(()));
    assert_eq!(
        worker.try_recv(),
        Ok(UploaderMessage::LoadData(LoadDescription {
            texture: TextureHandle { id: 5, width: 256, height: 256 },
            width: 256,
            height: 256,
            data: vec![3; 65536]
        }))
    );
}

#[test]
fn load_lut_rejects_what_is_not_a_table_and_sends_nothing() {
    let (uploader, worker) = ThreadUploader::new();
    assert_eq!(uploader.load_lut(&lut(5, 256), vec![3; 65535]), Err(BrokerError::CapacityMismatch));
    assert_eq!(uploader.load_lut(&lut(5, 128), vec![3; 65536]), Err(BrokerError::CapacityMismatch));
    assert_eq!(uploader.load_lut(&image(5, 256), vec![3; 65536]), Err(BrokerError::ClassMismatch));
    assert_eq!(worker.try_recv(), Err(ChannelError::Empty));
}

#[test]
fn every_request_fails_with_peer_closed_once_the_worker_is_gone() {
    let (uploader, worker) = ThreadUploader::new();
    drop(worker);
    assert_eq!(uploader.get_shared_context(), Err(BrokerError::PeerClosed));
    assert_eq!(uploader.set_current(), Err(BrokerError::PeerClosed));
    assert_eq!(uploader.acquire_image_handle((256, 256)), Err(BrokerError::PeerClosed));
    assert_eq!(uploader.acquire_lut_handle(), Err(BrokerError::PeerClosed));
    assert_eq!(uploader.load_image(&image(4, 4), (2, 3), vec![0; 6]), Err(BrokerError::PeerClosed));
    assert_eq!(uploader.load_lut(&lut(5, 256), vec![3; 65536]), Err(BrokerError::PeerClosed));
    assert_eq!(uploader.flush(), Err(BrokerError::PeerClosed));
    assert_eq!(
        uploader.release_texture(TextureHandle { id: 4, width: 4, height: 4 }),
        Err(BrokerError::PeerClosed)
    );
    // A rejected upload is rejected for its own reason, whatever the channel.
    assert_eq!(uploader.load_image(&image(4, 4), (5, 1), vec![0; 5]), Err(BrokerError::CapacityMismatch));
}

#[test]
fn the_requests_are_built_as_the_protocol_names_them() {
    let handle = TextureHandle { id: 4, width: 256, height: 256 };
    assert_eq!(context_request(), UploaderMessage::GetContext);
    assert_eq!(activation_request(), UploaderMessage::SetContextCurrent);
    assert_eq!(flush_request(), UploaderMessage::Flush);
    assert_eq!(release_request(handle), UploaderMessage::ReleaseTexture(handle));
    assert_eq!(
        acquire_request(TextureType::Mono, 200, 100),
        UploaderMessage::AcquireTexture(TextureType::Mono, 200, 100)
    );
    assert_eq!(
        acquire_request(TextureType::Lut, 1, usize::MAX),
        UploaderMessage::AcquireTexture(TextureType::Lut, 1, usize::MAX)
    );
    assert_eq!(lut_request(), UploaderMessage::AcquireTexture(TextureType::Lut, 256, 256));
}

#[test]
fn every_method_sends_exactly_one_request() {
    let (uploader, worker) = ThreadUploader::new();
    let context = SharedContext { handle: 1, platform: GlPlatform::Wgl };
    let handle = TextureHandle { id: 4, width: 256, height: 256 };
    assert_eq!(worker.send(UploaderMessage::Context(context)), Ok(()));
    assert_eq!(uploader.get_shared_context(), Ok(context));
    assert_eq!(worker.try_recv(), Ok(context_request()));
    assert_eq!(worker.try_recv(), Err(ChannelError::Empty));

    assert_eq!(uploader.set_current(), Ok(()));
    assert_eq!(worker.try_recv(), Ok(activation_request()));
    assert_eq!(worker.try_recv(), Err(ChannelError::Empty));

    assert_eq!(worker.send(UploaderMessage::Texture(Some(handle))), Ok(()));
    assert!(uploader.acquire_image_handle((300, 20)).is_ok());
    assert_eq!(worker.try_recv(), Ok(acquire_request(TextureType::Mono, 300, 20)));
    assert_eq!(worker.try_recv(), Err(ChannelError::Empty));

    assert_eq!(worker.send(UploaderMessage::Texture(Some(handle))), Ok(()));
    assert!(uploader.acquire_lut_handle().is_ok());
    assert_eq!(worker.try_recv(), Ok(lut_request()));
    assert_eq!(worker.try_recv(), Err(ChannelError::Empty));

    assert_eq!(uploader.flush(), Ok(()));
    assert_eq!(worker.try_recv(), Ok(flush_request()));
    assert_eq!(worker.try_recv(), Err(ChannelError::Empty));

    assert_eq!(uploader.release_texture(handle), Ok(()));
    assert_eq!(worker.try_recv(), Ok(release_request(handle)));
    assert_eq!(worker.try_recv(), Err(ChannelError::Empty));
}
