//! The producer's frame cycle: what the thread that feeds image data does
//! next, given what has just happened.
//!
//! For every frame the producer first releases the textures of the frames
//! that the consumer has given back, then leases an image texture, then
//! submits the frame. When no texture is available it waits for a frame to
//! come back, releases that frame's texture and asks again: running out of
//! textures is met by waiting, never by giving up. A texture is released
//! only when the frame that carried it has come back, and a frame is
//! submitted only with a texture that was leased for it and that holds it.
//!
//! The producer decides and its thread acts, as with the broker: `step`
//! takes an event and returns an action, every action but `Halt` ends in
//! exactly one event, and `perform` carries out the actions that are calls
//! on the two channels.

use crate::bidir::{BidirChannel, ChannelError};
use crate::error::BrokerError;
use crate::gstrender::GstRenderMessage;
use crate::texture::{TextureDescription, TextureHandle, TextureType};
use crate::uploader::{load_request_of, ThreadUploader};
use vstd::prelude::*;

verus! {

/// Where the producer stands in its frame cycle.
#[derive(Debug, Clone, Copy, PartialEq, Eq, Structural)]
pub enum ProducerState {
    /// Between two frames.
    Idle,
    /// Looking, without waiting, for frames that have come back.
    Collecting,
    /// Releasing the texture of a frame that was found while collecting.
    Returning,
    /// Waiting for the broker's answer to a request for a texture.
    Acquiring,
    /// No texture was available; waiting for a frame to come back.
    Starved,
    /// Releasing the texture of the frame that ended the wait.
    Recovering,
    /// The frame is being uploaded and sent.
    Submitting,
    /// The producer has stopped for good, for the reason given.
    Stopped(BrokerError),
}

/// What has happened since the last step.
#[derive(Debug, Clone, Copy, PartialEq, Eq, Structural)]
pub enum ProducerEvent {
    /// The next frame is due.
    FrameDue,
    /// A frame came back from the consumer; this is its image texture.
    Returned(TextureHandle),
    /// No frame has come back so far.
    NothingReturned,
    /// The release was sent.
    Released,
    /// The broker answered the request for a texture.
    Acquired(Option<TextureDescription>),
    /// The frame was uploaded and sent.
    Submitted,
    /// A call on a channel failed.
    Failed(BrokerError),
}

/// What the producer's thread is to do next.
#[derive(Debug, Clone, Copy, PartialEq, Eq, Structural)]
pub enum ProducerAction {
    /// Take a frame that has come back, without waiting; it ends in
    /// `Returned`, `NothingReturned` or `Failed`.
    Poll,
    /// Wait for a frame to come back; it ends in `Returned` or `Failed`.
    Wait,
    /// Release the texture; it ends in `Released` or `Failed`.
    Release(TextureHandle),
    /// Ask for an image texture that covers this width and height; it ends
    /// in `Acquired` or `Failed`.
    Acquire(usize, usize),
    /// Upload the frame into this texture and send it to the consumer; it
    /// ends in `Submitted` or `Failed`.
    Submit(TextureDescription),
    /// Wait until the next frame is due; it ends in `FrameDue`.
    Rest,
    /// Stop: the producer is stopped.
    Halt(BrokerError),
}

/// The producer as a mathematical value: its state and the size of its
/// frames.
pub struct ProducerView {
    pub state: ProducerState,
    pub width: usize,
    pub height: usize,
}

impl ProducerView {
    /// The producer of frames of `width` by `height`, before its first
    /// frame.
    pub open spec fn initial(width: usize, height: usize) -> ProducerView {
        ProducerView { state: ProducerState::Idle, width, height }
    }

    /// The producer in another state.
    pub open spec fn moved_to(self, state: ProducerState) -> ProducerView {
        ProducerView { state, width: self.width, height: self.height }
    }

    /// The end of the producer: it is stopped for `error` and its thread is
    /// told to halt.
    pub open spec fn halted(self, error: BrokerError) -> (ProducerView, ProducerAction) {
        (self.moved_to(ProducerState::Stopped(error)), ProducerAction::Halt(error))
    }

    /// What the producer does with the broker's answer. A texture is taken
    /// for the frame only if it is an image texture that covers the frame;
    /// one of the other class is a `ClassMismatch`, one that is too small a
    /// `CapacityMismatch`. No texture means waiting for a frame to come
    /// back.
    pub open spec fn answered(self, answer: Option<TextureDescription>) -> (
        ProducerView,
        ProducerAction,
    ) {
        match answer {
            None => (self.moved_to(ProducerState::Starved), ProducerAction::Wait),
            Some(texture) => if texture.kind != TextureType::Mono {
                self.halted(BrokerError::ClassMismatch)
            } else if !texture.handle.covers(self.width as nat, self.height as nat) {
                self.halted(BrokerError::CapacityMismatch)
            } else {
                (self.moved_to(ProducerState::Submitting), ProducerAction::Submit(texture))
            },
        }
    }

    /// The transition function: the producer after `event`, and what its
    /// thread is to do.
    ///
    /// A stopped producer stays as it is and repeats its reason; a failed
    /// call stops every other producer with the call's error; and an event
    /// that the state does not wait for stops it with `UnexpectedMessage`.
    pub open spec fn next(self, event: ProducerEvent) -> (ProducerView, ProducerAction) {
        match self.state {
            ProducerState::Stopped(error) => (self, ProducerAction::Halt(error)),
            _ => match event {
                ProducerEvent::Failed(error) => self.halted(error),
                _ => match (self.state, event) {
                    (ProducerState::Idle, ProducerEvent::FrameDue) => (
                        self.moved_to(ProducerState::Collecting),
                        ProducerAction::Poll,
                    ),
                    (ProducerState::Collecting, ProducerEvent::Returned(texture)) => (
                        self.moved_to(ProducerState::Returning),
                        ProducerAction::Release(texture),
                    ),
                    (ProducerState::Collecting, ProducerEvent::NothingReturned) => (
                        self.moved_to(ProducerState::Acquiring),
                        ProducerAction::Acquire(self.width, self.height),
                    ),
                    (ProducerState::Returning, ProducerEvent::Released) => (
                        self.moved_to(ProducerState::Collecting),
                        ProducerAction::Poll,
                    ),
                    (ProducerState::Acquiring, ProducerEvent::Acquired(answer)) => self.answered(
                        answer,
                    ),
                    (ProducerState::Starved, ProducerEvent::Returned(texture)) => (
                        self.moved_to(ProducerState::Recovering),
                        ProducerAction::Release(texture),
                    ),
                    (ProducerState::Recovering, ProducerEvent::Released) => (
                        self.moved_to(ProducerState::Acquiring),
                        ProducerAction::Acquire(self.width, self.height),
                    ),
                    (ProducerState::Submitting, ProducerEvent::Submitted) => (
                        self.moved_to(ProducerState::Idle),
                        ProducerAction::Rest,
                    ),
                    _ => self.halted(BrokerError::UnexpectedMessage),
                },
            },
        }
    }
}

/// The event that the end of a `Poll` amounts to.
pub open spec fn polled_event<V>(
    outcome: Result<GstRenderMessage<V>, ChannelError>,
) -> ProducerEvent {
    match outcome {
        Ok(frame) => ProducerEvent::Returned(frame.image_texture.handle),
        Err(ChannelError::Empty) => ProducerEvent::NothingReturned,
        Err(ChannelError::PeerClosed) => ProducerEvent::Failed(BrokerError::PeerClosed),
    }
}

/// The event that the end of a `Wait` amounts to.
pub open spec fn awaited_event<V>(
    outcome: Result<GstRenderMessage<V>, ChannelError>,
) -> ProducerEvent {
    match outcome {
        Ok(frame) => ProducerEvent::Returned(frame.image_texture.handle),
        Err(_) => ProducerEvent::Failed(BrokerError::PeerClosed),
    }
}

/// The event that the end of a `Release` amounts to.
pub open spec fn released_event(outcome: Result<(), BrokerError>) -> ProducerEvent {
    match outcome {
        Ok(_) => ProducerEvent::Released,
        Err(error) => ProducerEvent::Failed(error),
    }
}

/// The event that the end of an `Acquire` amounts to.
pub open spec fn acquired_event(
    outcome: Result<Option<TextureDescription>, BrokerError>,
) -> ProducerEvent {
    match outcome {
        Ok(answer) => ProducerEvent::Acquired(answer),
        Err(error) => ProducerEvent::Failed(error),
    }
}

/// Names the event in which a `Poll` ended.
pub fn polled<V>(outcome: Result<GstRenderMessage<V>, ChannelError>) -> (event: ProducerEvent)
    ensures
        event == polled_event(outcome),
{
    match outcome {
        Ok(frame) => ProducerEvent::Returned(frame.image_texture.handle),
        Err(ChannelError::Empty) => ProducerEvent::NothingReturned,
        Err(ChannelError::PeerClosed) => ProducerEvent::Failed(BrokerError::PeerClosed),
    }
}

/// Names the event in which a `Wait` ended.
pub fn awaited<V>(outcome: Result<GstRenderMessage<V>, ChannelError>) -> (event: ProducerEvent)
    ensures
        event == awaited_event(outcome),
{
    match outcome {
        Ok(frame) => ProducerEvent::Returned(frame.image_texture.handle),
        Err(_) => ProducerEvent::Failed(BrokerError::PeerClosed),
    }
}

/// Names the event in which a `Release` ended.
pub fn released(outcome: Result<(), BrokerError>) -> (event: ProducerEvent)
    ensures
        event == released_event(outcome),
{
    match outcome {
        Ok(_) => ProducerEvent::Released,
        Err(error) => ProducerEvent::Failed(error),
    }
}

/// Names the event in which an `Acquire` ended.
pub fn acquired(outcome: Result<Option<TextureDescription>, BrokerError>) -> (event:
    ProducerEvent)
    ensures
        event == acquired_event(outcome),
{
    match outcome {
        Ok(answer) => ProducerEvent::Acquired(answer),
        Err(error) => ProducerEvent::Failed(error),
    }
}

/// The decisions of the producer's thread.
pub struct Producer {
    state: ProducerState,
    width: usize,
    height: usize,
}

impl View for Producer {
    type V = ProducerView;

    closed spec fn view(&self) -> ProducerView {
        ProducerView { state: self.state, width: self.width, height: self.height }
    }
}

impl Producer {
    /// A producer of frames of `width` by `height`, before its first frame.
    pub fn new(width: usize, height: usize) -> (producer: Self)
        ensures
            producer@ == ProducerView::initial(width, height),
    {
        Producer { state: ProducerState::Idle, width, height }
    }

    /// Where the producer stands.
    pub fn state(&self) -> (state: ProducerState)
        ensures
            state == self@.state,
    {
        self.state
    }

    fn halt(&mut self, error: BrokerError) -> (action: ProducerAction)
        ensures
            (final(self)@, action) == old(self)@.halted(error),
    {
        self.state = ProducerState::Stopped(error);
        ProducerAction::Halt(error)
    }

    fn answer(&mut self, answer: Option<TextureDescription>) -> (action: ProducerAction)
        ensures
            (final(self)@, action) == old(self)@.answered(answer),
    {
        match answer {
            None => {
                self.state = ProducerState::Starved;
                ProducerAction::Wait
            },
            Some(texture) => match texture.kind {
                TextureType::Lut => self.halt(BrokerError::ClassMismatch),
                TextureType::Mono => {
                    if self.width <= texture.handle.width && self.height <= texture.handle.height {
                        self.state = ProducerState::Submitting;
                        ProducerAction::Submit(texture)
                    } else {
                        self.halt(BrokerError::CapacityMismatch)
                    }
                },
            },
        }
    }

    /// Takes one event and decides what the producer's thread does next.
    pub fn step(&mut self, event: ProducerEvent) -> (action: ProducerAction)
        ensures
            (final(self)@, action) == old(self)@.next(event),
    {
        if let ProducerState::Stopped(error) = self.state {
            return ProducerAction::Halt(error);
        }
        if let ProducerEvent::Failed(error) = event {
            return self.halt(error);
        }
        match (self.state, event) {
            (ProducerState::Idle, ProducerEvent::FrameDue) => {
                self.state = ProducerState::Collecting;
                ProducerAction::Poll
            },
            (ProducerState::Collecting, ProducerEvent::Returned(texture)) => {
                self.state = ProducerState::Returning;
                ProducerAction::Release(texture)
            },
            (ProducerState::Collecting, ProducerEvent::NothingReturned) => {
                self.state = ProducerState::Acquiring;
                ProducerAction::Acquire(self.width, self.height)
            },
            (ProducerState::Returning, ProducerEvent::Released) => {
                self.state = ProducerState::Collecting;
                ProducerAction::Poll
            },
            (ProducerState::Acquiring, ProducerEvent::Acquired(answer)) => self.answer(answer),
            (ProducerState::Starved, ProducerEvent::Returned(texture)) => {
                self.state = ProducerState::Recovering;
                ProducerAction::Release(texture)
            },
            (ProducerState::Recovering, ProducerEvent::Released) => {
                self.state = ProducerState::Acquiring;
                ProducerAction::Acquire(self.width, self.height)
            },
            (ProducerState::Submitting, ProducerEvent::Submitted) => {
                self.state = ProducerState::Idle;
                ProducerAction::Rest
            },
            _ => self.halt(BrokerError::UnexpectedMessage),
        }
    }

    /// Carries out an action that is a call on one of the two channels and
    /// returns the event it ended in: `Poll` and `Wait` on the channel to
    /// the consumer, `Release` and `Acquire` through the uploader.
    /// `Submit`, `Rest` and `Halt` are handed back for the producer's thread
    /// to act on.
    pub fn perform<V>(
        uploader: &ThreadUploader,
        frames: &BidirChannel<GstRenderMessage<V>>,
        action: ProducerAction,
    ) -> (outcome: Result<ProducerEvent, ProducerAction>)
        ensures
            match action {
                ProducerAction::Poll => outcome matches Ok(event) && (event is Returned || event
                    == ProducerEvent::NothingReturned || event == ProducerEvent::Failed(
                    BrokerError::PeerClosed,
                )),
                ProducerAction::Wait => outcome matches Ok(event) && (event is Returned || event
                    == ProducerEvent::Failed(BrokerError::PeerClosed)),
                ProducerAction::Release(_) => outcome matches Ok(event) && (event
                    == ProducerEvent::Released || event == ProducerEvent::Failed(
                    BrokerError::PeerClosed,
                )),
                ProducerAction::Acquire(_, _) => outcome matches Ok(event) && match event {
                    ProducerEvent::Acquired(answer) => answer matches Some(texture)
                        ==> texture.kind == TextureType::Mono,
                    ProducerEvent::Failed(error) => error == BrokerError::PeerClosed || error
                        == BrokerError::UnexpectedMessage,
                    _ => false,
                },
                _ => outcome == Err::<ProducerEvent, ProducerAction>(action),
            },
    {
        match action {
            ProducerAction::Poll => Ok(polled(frames.try_recv())),
            ProducerAction::Wait => Ok(awaited(frames.recv())),
            ProducerAction::Release(texture) => Ok(released(uploader.release_texture(texture))),
            ProducerAction::Acquire(width, height) => Ok(
                acquired(uploader.acquire_image_handle((width, height))),
            ),
            other => Err(other),
        }
    }
}

/// One frame without a wait. A producer that is idle looks for returned
/// frames when the frame is due; if there is none it asks for a texture of
/// its frame size; if it gets one that holds the frame it submits the frame
/// with exactly that texture; and after that it rests, idle again.
pub proof fn lemma_frame_cycle(width: usize, height: usize, texture: TextureDescription)
    requires
        texture.kind == TextureType::Mono,
        texture.handle.covers(width as nat, height as nat),
    ensures
        ({
            let (collecting, poll) = ProducerView::initial(width, height).next(
                ProducerEvent::FrameDue,
            );
            let (acquiring, acquire) = collecting.next(ProducerEvent::NothingReturned);
            let (submitting, submit) = acquiring.next(ProducerEvent::Acquired(Some(texture)));
            let (idle, rest) = submitting.next(ProducerEvent::Submitted);
            &&& poll == ProducerAction::Poll
            &&& acquire == ProducerAction::Acquire(width, height)
            &&& submit == ProducerAction::Submit(texture)
            &&& rest == ProducerAction::Rest
            &&& idle == ProducerView::initial(width, height)
        }),
{
}

/// Running out of textures is met by waiting. A producer that is told that
/// no texture is available does not stop: it waits for a frame to come
/// back, releases the texture of the frame that came back, and asks again
/// for a texture of the same size.
pub proof fn lemma_exhaustion_is_retried(producer: ProducerView, returned: TextureHandle)
    requires
        producer.state == ProducerState::Acquiring,
    ensures
        ({
            let (starved, wait) = producer.next(ProducerEvent::Acquired(None));
            let (recovering, release) = starved.next(ProducerEvent::Returned(returned));
            let (acquiring, again) = recovering.next(ProducerEvent::Released);
            &&& wait == ProducerAction::Wait
            &&& release == ProducerAction::Release(returned)
            &&& again == ProducerAction::Acquire(producer.width, producer.height)
            &&& acquiring == producer
        }),
{
}

/// Only what came back is released, and only what was leased is used. The
/// producer releases a texture only in answer to the return of the frame
/// that carried it, and it submits a frame only with the texture that the
/// broker has just granted, which is then an image texture that covers the
/// frame.
pub proof fn lemma_textures_are_used_in_turn(producer: ProducerView, event: ProducerEvent)
    ensures
        producer.next(event).1 matches ProducerAction::Release(texture) ==> event
            == ProducerEvent::Returned(texture),
        producer.next(event).1 matches ProducerAction::Submit(texture) ==> {
            &&& event == ProducerEvent::Acquired(Some(texture))
            &&& texture.kind == TextureType::Mono
            &&& texture.handle.covers(producer.width as nat, producer.height as nat)
        },
        producer.next(event).1 matches ProducerAction::Acquire(width, height) ==> width
            == producer.width && height == producer.height,
{
}

/// What is submitted can be uploaded. When the producer submits a frame
/// with a texture, pixel data of exactly the frame's area makes a valid
/// upload request for that texture.
pub proof fn lemma_submitted_frame_can_be_loaded(
    producer: ProducerView,
    event: ProducerEvent,
    data: Vec<u16>,
)
    requires
        data@.len() == producer.width * producer.height,
    ensures
        producer.next(event).1 matches ProducerAction::Submit(texture) ==> load_request_of(
            texture,
            TextureType::Mono,
            producer.width,
            producer.height,
            data,
        ) is Ok,
{
}

/// Stopping is final. The thread is told to halt exactly when the step
/// leaves the producer stopped, with the same reason; a stopped producer
/// answers every event with that reason and does not change; and a failed
/// call stops every producer that is not stopped yet, with the call's
/// error.
pub proof fn lemma_stop_is_final(producer: ProducerView, event: ProducerEvent, error: BrokerError)
    ensures
        producer.next(event).1 matches ProducerAction::Halt(reason) ==> producer.next(
            event,
        ).0.state == ProducerState::Stopped(reason),
        producer.next(event).0.state matches ProducerState::Stopped(reason) ==> producer.next(
            event,
        ).1 == ProducerAction::Halt(reason),
        producer.state matches ProducerState::Stopped(reason) ==> producer.next(event) == (
            producer,
            ProducerAction::Halt(reason),
        ),
        !(producer.state is Stopped) ==> producer.next(ProducerEvent::Failed(error))
            == producer.halted(error),
{
}

} // verus!
