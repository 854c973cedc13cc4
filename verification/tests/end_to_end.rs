use texture_broker::bidir::BidirChannel;
use texture_broker::broker::{BrokerAction, BrokerEvent, BrokerState, GpuCommand, ResourceBroker};
use texture_broker::context::{GlPlatform, RawHandle, SharedContext};
use texture_broker::gstrender::{GstRenderMessage, RenderSlot, ReplyPolicy};
use texture_broker::lut::generate_lut_data;
use texture_broker::pool::LeaseState;
use texture_broker::texture::{TextureDescription, TextureType, UploaderMessage};
use texture_broker::uploader::{context_reply, load_request, texture_reply};

/// A worker without a GPU: it hands out ascending identifiers and keeps what was uploaded.
struct Worker {
    broker: ResourceBroker,
    channel: BidirChannel<UploaderMessage>,
    next_id: u32,
    uploads: Vec<(u32, usize, usize, Vec<u16>)>,
    flushes: usize,
    action: Option<BrokerAction>,
}

impl Worker {
    fn new(channel: BidirChannel<UploaderMessage>) -> Worker {
        let mut broker = ResourceBroker::new();
        let action = broker.step(BrokerEvent::Started(RawHandle::Wgl(0x1234)));
        Worker {
            broker,
            channel,
            next_id: 1,
            uploads: Vec::new(),
            flushes: 0,
            action: Some(action),
        }
    }

    /// Serves the given number of requests and stops where the worker would wait for the next.
    fn run(&mut self, requests: usize) {
        let mut left = requests;
        loop {
            let action = self.action.take().unwrap();
            if action == BrokerAction::Receive {
                if left == 0 {
                    self.action = Some(action);
                    return;
                }
                left -= 1;
            }
            let event = match ResourceBroker::perform(&self.channel, action) {
                Ok(event) => event,
                Err(BrokerAction::Gpu(GpuCommand::Allocate(_, _))) => {
                    self.next_id += 1;
                    BrokerEvent::Allocated(self.next_id - 1)
                }
                Err(BrokerAction::Gpu(GpuCommand::Upload(upload))) => {
                    self.uploads.push((upload.texture.id, upload.width, upload.height, upload.pixels));
                    BrokerEvent::Completed
                }
                Err(BrokerAction::Gpu(GpuCommand::Flush)) => {
                    self.flushes += 1;
                    BrokerEvent::Completed
                }
                Err(BrokerAction::Gpu(_)) => BrokerEvent::Completed,
                Err(other) => panic!("the worker stopped: {:?}", other),
            };
            self.action = Some(self.broker.step(event));
        }
    }
}

fn acquire(
    client: &BidirChannel<UploaderMessage>,
    worker: &mut Worker,
    kind: TextureType,
    width: usize,
    height: usize,
) -> Option<TextureDescription> {
    client.send(UploaderMessage::AcquireTexture(kind, width, height)).unwrap();
    worker.run(1);
    texture_reply(kind, client.recv().unwrap()).unwrap()
}

fn started(client: &BidirChannel<UploaderMessage>, worker: &mut Worker) {
    client.send(UploaderMessage::GetContext).unwrap();
    worker.run(1);
    assert_eq!(
        context_reply(client.recv().unwrap()),
        Ok(SharedContext { handle: 0x1234, platform: GlPlatform::Wgl })
    );
    client.send(UploaderMessage::SetContextCurrent).unwrap();
    worker.run(1);
    assert_eq!(worker.broker.state(), BrokerState::Running);
}

#[test]
fn a_returned_texture_is_leased_again_under_the_same_id() {
    let (client, worker_end) = BidirChannel::new_pair();
    let mut worker = Worker::new(worker_end);
    started(&client, &mut worker);

    let (producer, consumer) = BidirChannel::<GstRenderMessage<[f32; 4]>>::new_pair();
    let mut slot = RenderSlot::new(consumer, ReplyPolicy::Return);

    let image = acquire(&client, &mut worker, TextureType::Mono, 256, 256).unwrap();
    let lut = acquire(&client, &mut worker, TextureType::Lut, 256, 256).unwrap();
    assert_eq!((image.handle.width, image.handle.height), (256, 256));
    assert_eq!(image.kind, TextureType::Mono);
    assert_eq!(lut.kind, TextureType::Lut);
    assert_ne!(image.handle.id, lut.handle.id);

    let pixels: Vec<u16> = (0..65536u32).map(|i| (i / 256) as u16).collect();
    client.send(load_request(&image, TextureType::Mono, 256, 256, pixels.clone()).unwrap()).unwrap();
    client.send(load_request(&lut, TextureType::Lut, 256, 256, generate_lut_data()).unwrap()).unwrap();
    client.send(UploaderMessage::Flush).unwrap();
    worker.run(3);
    assert_eq!(worker.uploads.len(), 2);
    assert_eq!(worker.uploads[0], (image.handle.id, 256, 256, pixels));
    assert_eq!(worker.uploads[1].0, lut.handle.id);
    assert_eq!(worker.uploads[1].3, generate_lut_data());
    assert_eq!(worker.flushes, 1);

    // While the message is with the consumer, the same size gives no texture.
    producer
        .send(GstRenderMessage {
            image_texture: image,
            lut_texture: lut,
            vertex_data: vec![[0.0, 0.0, 0.0, 1.0], [1.0, 1.0, 1.0, 0.0]],
        })
        .ok()
        .unwrap();
    assert_eq!(acquire(&client, &mut worker, TextureType::Mono, 256, 256), None);

    // The consumer's callback: construct once, draw, give the message back.
    assert_eq!(slot.construct(), Ok(()));
    let drawn = slot.dispatcher().unwrap().draw().unwrap();
    assert_eq!(drawn.image_texture.handle.id, image.handle.id);
    assert_eq!(drawn.lut_texture.handle.id, lut.handle.id);
    assert_eq!(drawn.vertex_data.len(), 2);
    assert_eq!(slot.dispatcher().unwrap().finish(drawn), Ok(()));

    let back = producer.recv().ok().unwrap();
    assert_eq!(back.image_texture, image);
    assert_eq!(back.lut_texture, lut);
    client.send(UploaderMessage::ReleaseTexture(back.image_texture.handle)).unwrap();
    worker.run(1);
    assert_eq!(worker.broker.pool().lease_of(image.handle.id), Some(LeaseState::Free));
    assert_eq!(worker.broker.pool().lease_of(lut.handle.id), Some(LeaseState::Leased));

    let again = acquire(&client, &mut worker, TextureType::Mono, 256, 256).unwrap();
    assert_eq!(again.handle.id, image.handle.id);
    assert_eq!(again, image);
    assert_eq!(worker.broker.pool().allocated(TextureType::Mono), 1);
    assert_eq!(worker.broker.pool().allocated(TextureType::Lut), 1);
    assert_eq!(worker.broker.state(), BrokerState::Running);
}

#[test]
fn without_a_reply_every_frame_needs_a_new_size_or_gets_none() {
    let (client, worker_end) = BidirChannel::new_pair();
    let mut worker = Worker::new(worker_end);
    started(&client, &mut worker);

    let (producer, consumer) = BidirChannel::<GstRenderMessage<u32>>::new_pair();
    let mut slot = RenderSlot::new(consumer, ReplyPolicy::Drop);
    assert_eq!(slot.construct(), Ok(()));

    let image = acquire(&client, &mut worker, TextureType::Mono, 256, 256).unwrap();
    let lut = acquire(&client, &mut worker, TextureType::Lut, 256, 256).unwrap();
    producer
        .send(GstRenderMessage { image_texture: image, lut_texture: lut, vertex_data: vec![1, 2, 3] })
        .ok()
        .unwrap();
    let drawn = slot.dispatcher().unwrap().draw().unwrap();
    assert_eq!(slot.dispatcher().unwrap().finish(drawn), Ok(()));
    assert!(producer.try_recv().is_err());
    // Nothing comes back, so nothing is released, and the bucket stays taken.
    assert_eq!(acquire(&client, &mut worker, TextureType::Mono, 256, 256), None);
    assert_eq!(acquire(&client, &mut worker, TextureType::Lut, 256, 256), None);
    assert_eq!(worker.broker.pool().allocated(TextureType::Mono), 1);
}

#[test]
fn a_worker_whose_producer_is_gone_stops_with_peer_closed() {
    let (client, worker_end) = BidirChannel::<UploaderMessage>::new_pair();
    let mut broker = ResourceBroker::new();
    drop(client);
    let mut event = BrokerEvent::Started(RawHandle::Wgl(1));
    let mut steps = 0;
    let stopped = loop {
        steps += 1;
        assert!(steps < 10);
        match broker.advance(&worker_end, event) {
            Ok(next) => event = next,
            Err(BrokerAction::Gpu(_)) => event = BrokerEvent::Completed,
            Err(other) => break other,
        }
    };
    assert_eq!(stopped, BrokerAction::Halt(texture_broker::error::BrokerError::PeerClosed));
}
