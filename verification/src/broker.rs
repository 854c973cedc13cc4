//! The resource broker: the state machine of the worker thread that owns the
//! GPU context and the texture pool.
//!
//! The broker decides and the worker thread acts. Each call of `step` takes
//! what has just happened (an event) and returns what is to be done next (an
//! action); every action but `Halt` ends in exactly one event, which is
//! handed to the next call. Work on the channel is carried out by `perform`;
//! work on the GPU is left to the thread that holds the context.
//!
//! The life of a broker: `Uninitialized`, `AwaitingContextRequest`,
//! `ContextPublished`, `AwaitingActivation`, `Running`, `Terminated`. Until
//! it runs, the broker accepts exactly one course of events, the handshake;
//! anything else ends it.

use crate::bidir::{BidirChannel, ChannelError};
use crate::context::{share, shared, GlPlatform, RawHandle, SharedContext};
use crate::error::BrokerError;
use crate::pool::{
    checked_upload, lemma_granted_texture_covers, lemma_operations_keep_invariant,
    lemma_repeated_request_is_refused, Acquire, PoolView, TexturePool, Upload,
};
use crate::sizing::{bucket, larger};
use crate::texture::{TextureDescription, TextureHandle, TextureType, UploaderMessage};
use crate::uploader::{context_of, texture_of};
use vstd::arithmetic::power2::is_pow2;
use vstd::prelude::*;

verus! {

/// Where the broker stands in its life.
#[derive(Debug, Clone, Copy, PartialEq, Eq, Structural)]
pub enum BrokerState {
    /// The worker has no GPU context yet.
    Uninitialized,
    /// The context exists and is not current; the broker waits to be asked
    /// for the shareable handle.
    AwaitingContextRequest,
    /// The handle is on its way to the caller.
    ContextPublished,
    /// The handle was delivered; the broker waits for the signal to make its
    /// context current.
    AwaitingActivation,
    /// The broker serves pool requests.
    Running,
    /// The broker has stopped for good, for the reason given.
    Terminated(BrokerError),
}

/// Work on the GPU that only the worker thread can do.
#[derive(Debug, PartialEq, Eq)]
pub enum GpuCommand {
    /// Release the worker's context, so that it is current on no thread.
    Deactivate,
    /// Make the worker's context current on the worker thread.
    MakeCurrent,
    /// Allocate an empty square buffer of the class and side, and report its
    /// identifier with `BrokerEvent::Allocated`.
    Allocate(TextureType, usize),
    /// Write pixel data into a texture.
    Upload(Upload),
    /// Submit the pending GPU commands.
    Flush,
}

/// What has happened since the last step.
#[derive(Debug, PartialEq, Eq)]
pub enum BrokerEvent {
    /// The worker thread has created its GPU context.
    Started(RawHandle),
    /// A message arrived on the channel.
    Request(UploaderMessage),
    /// The reply was handed to the channel.
    Delivered,
    /// The buffer asked for with `GpuCommand::Allocate` exists.
    Allocated(u32),
    /// Any other GPU command was carried out.
    Completed,
    /// The channel's peer is gone.
    PeerClosed,
}

/// What the worker thread is to do next.
#[derive(Debug, PartialEq, Eq)]
pub enum BrokerAction {
    /// Wait for the next message; it ends in `Request` or `PeerClosed`.
    Receive,
    /// Send the message; it ends in `Delivered` or `PeerClosed`.
    Reply(UploaderMessage),
    /// Carry out the command; `Allocate` ends in `Allocated`, every other
    /// command in `Completed`.
    Gpu(GpuCommand),
    /// Stop: the broker is terminated.
    Halt(BrokerError),
}

/// A request that found no buffer and waits for the one being allocated.
#[derive(Debug, Clone, Copy, PartialEq, Eq, Structural)]
pub struct Pending {
    pub class: TextureType,
    pub width: usize,
    pub height: usize,
}

/// The broker as a mathematical value.
pub struct BrokerView {
    pub state: BrokerState,
    pub context: Option<SharedContext>,
    pub pending: Option<Pending>,
    pub pool: PoolView,
}

impl BrokerView {
    /// The broker before anything has happened.
    pub open spec fn initial() -> BrokerView {
        BrokerView {
            state: BrokerState::Uninitialized,
            context: None,
            pending: None,
            pool: PoolView::empty(),
        }
    }

    /// The broker's invariant: the pool's own, and a request waits for its
    /// buffer only while the broker runs and only if it did miss.
    pub open spec fn wf(self) -> bool {
        &&& self.pool.wf()
        &&& self.pending matches Some(request) ==> {
            &&& self.state == BrokerState::Running
            &&& self.pool.acquire(request.class, request.width as nat, request.height as nat).1
                is Miss
        }
    }

    /// The broker in another state, with everything else as it is.
    pub open spec fn moved_to(self, state: BrokerState) -> BrokerView {
        BrokerView { state, context: self.context, pending: self.pending, pool: self.pool }
    }

    /// The broker with another pool and no request waiting.
    pub open spec fn with_pool(self, pool: PoolView) -> BrokerView {
        BrokerView { state: self.state, context: self.context, pending: None, pool }
    }

    /// The end of the broker: it is terminated for `error`, no request
    /// waits any more, and the worker is told to halt.
    pub open spec fn halted(self, error: BrokerError) -> (BrokerView, BrokerAction) {
        (
            BrokerView {
                state: BrokerState::Terminated(error),
                context: self.context,
                pending: None,
                pool: self.pool,
            },
            BrokerAction::Halt(error),
        )
    }

    /// One step of the running broker that has no request waiting: one pool
    /// operation for one request, and a reply only to `AcquireTexture`.
    pub open spec fn serve(self, event: BrokerEvent) -> (BrokerView, BrokerAction) {
        match event {
            BrokerEvent::Request(UploaderMessage::AcquireTexture(class, width, height)) => {
                let (pool, outcome) = self.pool.acquire(class, width as nat, height as nat);
                match outcome {
                    Acquire::Leased(handle) => (
                        self.with_pool(pool),
                        BrokerAction::Reply(UploaderMessage::Texture(Some(handle))),
                    ),
                    Acquire::Exhausted => (
                        self,
                        BrokerAction::Reply(UploaderMessage::Texture(None)),
                    ),
                    Acquire::Oversize => (
                        self,
                        BrokerAction::Reply(UploaderMessage::Texture(None)),
                    ),
                    Acquire::Miss(side) => (
                        BrokerView {
                            state: self.state,
                            context: self.context,
                            pending: Some(Pending { class, width, height }),
                            pool: self.pool,
                        },
                        BrokerAction::Gpu(GpuCommand::Allocate(class, side)),
                    ),
                }
            },
            BrokerEvent::Request(UploaderMessage::LoadData(load)) => match checked_upload(
                load.texture,
                load.width,
                load.height,
                load.data,
            ) {
                Ok(upload) => (self, BrokerAction::Gpu(GpuCommand::Upload(upload))),
                Err(error) => self.halted(error),
            },
            BrokerEvent::Request(UploaderMessage::ReleaseTexture(handle)) => match self.pool.release(
                handle,
            ) {
                Ok(pool) => (self.with_pool(pool), BrokerAction::Receive),
                Err(error) => self.halted(error),
            },
            BrokerEvent::Request(UploaderMessage::Flush) => (
                self,
                BrokerAction::Gpu(GpuCommand::Flush),
            ),
            BrokerEvent::Delivered => (self, BrokerAction::Receive),
            BrokerEvent::Completed => (self, BrokerAction::Receive),
            _ => self.halted(BrokerError::UnexpectedMessage),
        }
    }

    /// One step of the running broker while a request waits for its buffer:
    /// only the buffer's arrival is accepted.
    pub open spec fn complete(self, request: Pending, event: BrokerEvent) -> (
        BrokerView,
        BrokerAction,
    ) {
        match event {
            BrokerEvent::Allocated(id) => match self.pool.register(
                request.class,
                request.width as nat,
                request.height as nat,
                id,
            ) {
                Ok((pool, handle)) => (
                    self.with_pool(pool),
                    BrokerAction::Reply(UploaderMessage::Texture(Some(handle))),
                ),
                Err(error) => self.halted(error),
            },
            _ => self.halted(BrokerError::UnexpectedMessage),
        }
    }

    /// The transition function: the broker after `event`, and what the
    /// worker is to do.
    ///
    /// A terminated broker stays as it is and repeats its reason. The loss
    /// of the peer terminates every other broker. Before the broker runs,
    /// each state accepts the one event that continues the handshake, and
    /// every other event is a `ContextHandshakeViolation`.
    pub open spec fn next(self, event: BrokerEvent) -> (BrokerView, BrokerAction) {
        match self.state {
            BrokerState::Terminated(error) => (self, BrokerAction::Halt(error)),
            _ => match event {
                BrokerEvent::PeerClosed => self.halted(BrokerError::PeerClosed),
                _ => match self.state {
                    BrokerState::Uninitialized => match event {
                        BrokerEvent::Started(raw) => match shared(raw) {
                            Ok(context) => (
                                BrokerView {
                                    state: BrokerState::AwaitingContextRequest,
                                    context: Some(context),
                                    pending: self.pending,
                                    pool: self.pool,
                                },
                                BrokerAction::Gpu(GpuCommand::Deactivate),
                            ),
                            Err(error) => self.halted(error),
                        },
                        _ => self.halted(BrokerError::ContextHandshakeViolation),
                    },
                    BrokerState::AwaitingContextRequest => match event {
                        BrokerEvent::Completed => (self, BrokerAction::Receive),
                        BrokerEvent::Request(UploaderMessage::GetContext) => match self.context {
                            Some(context) => (
                                self.moved_to(BrokerState::ContextPublished),
                                BrokerAction::Reply(UploaderMessage::Context(context)),
                            ),
                            None => self.halted(BrokerError::ContextHandshakeViolation),
                        },
                        _ => self.halted(BrokerError::ContextHandshakeViolation),
                    },
                    BrokerState::ContextPublished => match event {
                        BrokerEvent::Delivered => (
                            self.moved_to(BrokerState::AwaitingActivation),
                            BrokerAction::Receive,
                        ),
                        _ => self.halted(BrokerError::ContextHandshakeViolation),
                    },
                    BrokerState::AwaitingActivation => match event {
                        BrokerEvent::Request(UploaderMessage::SetContextCurrent) => (
                            self.moved_to(BrokerState::Running),
                            BrokerAction::Gpu(GpuCommand::MakeCurrent),
                        ),
                        _ => self.halted(BrokerError::ContextHandshakeViolation),
                    },
                    BrokerState::Running => match self.pending {
                        Some(request) => self.complete(request, event),
                        None => self.serve(event),
                    },
                    BrokerState::Terminated(error) => (self, BrokerAction::Halt(error)),
                },
            },
        }
    }
}

/// The decisions of the worker thread, with the pool they are made on.
pub struct ResourceBroker {
    state: BrokerState,
    context: Option<SharedContext>,
    pending: Option<Pending>,
    pool: TexturePool,
}

impl View for ResourceBroker {
    type V = BrokerView;

    closed spec fn view(&self) -> BrokerView {
        BrokerView {
            state: self.state,
            context: self.context,
            pending: self.pending,
            pool: self.pool@,
        }
    }
}

impl ResourceBroker {
    /// A broker that has not started, with an empty pool.
    pub fn new() -> (broker: Self)
        ensures
            broker@ == BrokerView::initial(),
            broker@.wf(),
    {
        ResourceBroker {
            state: BrokerState::Uninitialized,
            context: None,
            pending: None,
            pool: TexturePool::new(),
        }
    }

    /// Where the broker stands.
    pub fn state(&self) -> (state: BrokerState)
        ensures
            state == self@.state,
    {
        self.state
    }

    /// The broker's pool, to look at.
    pub fn pool(&self) -> (pool: &TexturePool)
        ensures
            pool@ == self@.pool,
    {
        &self.pool
    }

    fn halt(&mut self, error: BrokerError) -> (action: BrokerAction)
        ensures
            (final(self)@, action) == old(self)@.halted(error),
    {
        self.state = BrokerState::Terminated(error);
        self.pending = None;
        BrokerAction::Halt(error)
    }

    fn serve(&mut self, event: BrokerEvent) -> (action: BrokerAction)
        requires
            old(self)@.wf(),
            old(self)@.state == BrokerState::Running,
            old(self)@.pending is None,
        ensures
            (final(self)@, action) == old(self)@.serve(event),
    {
        match event {
            BrokerEvent::Request(UploaderMessage::AcquireTexture(class, width, height)) => {
                match self.pool.acquire(class, width, height) {
                    Acquire::Leased(handle) => BrokerAction::Reply(
                        UploaderMessage::Texture(Some(handle)),
                    ),
                    Acquire::Exhausted => BrokerAction::Reply(UploaderMessage::Texture(None)),
                    Acquire::Oversize => BrokerAction::Reply(UploaderMessage::Texture(None)),
                    Acquire::Miss(side) => {
                        self.pending = Some(Pending { class, width, height });
                        BrokerAction::Gpu(GpuCommand::Allocate(class, side))
                    },
                }
            },
            BrokerEvent::Request(UploaderMessage::LoadData(load)) => {
                match self.pool.load(load.texture, load.width, load.height, load.data) {
                    Ok(upload) => BrokerAction::Gpu(GpuCommand::Upload(upload)),
                    Err(error) => self.halt(error),
                }
            },
            BrokerEvent::Request(UploaderMessage::ReleaseTexture(handle)) => {
                match self.pool.release(handle) {
                    Ok(()) => BrokerAction::Receive,
                    Err(error) => self.halt(error),
                }
            },
            BrokerEvent::Request(UploaderMessage::Flush) => BrokerAction::Gpu(GpuCommand::Flush),
            BrokerEvent::Delivered => BrokerAction::Receive,
            BrokerEvent::Completed => BrokerAction::Receive,
            _ => self.halt(BrokerError::UnexpectedMessage),
        }
    }

    fn complete(&mut self, request: Pending, event: BrokerEvent) -> (action: BrokerAction)
        requires
            old(self)@.wf(),
            old(self)@.state == BrokerState::Running,
        ensures
            (final(self)@, action) == old(self)@.complete(request, event),
    {
        match event {
            BrokerEvent::Allocated(id) => {
                match self.pool.register(request.class, request.width, request.height, id) {
                    Ok(handle) => {
                        self.pending = None;
                        BrokerAction::Reply(UploaderMessage::Texture(Some(handle)))
                    },
                    Err(error) => self.halt(error),
                }
            },
            _ => self.halt(BrokerError::UnexpectedMessage),
        }
    }

    /// Takes one event and decides what the worker does next.
    pub fn step(&mut self, event: BrokerEvent) -> (action: BrokerAction)
        requires
            old(self)@.wf(),
        ensures
            (final(self)@, action) == old(self)@.next(event),
            final(self)@.wf(),
    {
        proof {
            lemma_next_keeps_invariant(self@, event);
        }
        if let BrokerState::Terminated(error) = self.state {
            return BrokerAction::Halt(error);
        }
        if let BrokerEvent::PeerClosed = event {
            return self.halt(BrokerError::PeerClosed);
        }
        match self.state {
            BrokerState::Uninitialized => match event {
                BrokerEvent::Started(raw) => match share(raw) {
                    Ok(context) => {
                        self.context = Some(context);
                        self.state = BrokerState::AwaitingContextRequest;
                        BrokerAction::Gpu(GpuCommand::Deactivate)
                    },
                    Err(error) => self.halt(error),
                },
                _ => self.halt(BrokerError::ContextHandshakeViolation),
            },
            BrokerState::AwaitingContextRequest => match event {
                BrokerEvent::Completed => BrokerAction::Receive,
                BrokerEvent::Request(UploaderMessage::GetContext) => match self.context {
                    Some(context) => {
                        self.state = BrokerState::ContextPublished;
                        BrokerAction::Reply(UploaderMessage::Context(context))
                    },
                    None => self.halt(BrokerError::ContextHandshakeViolation),
                },
                _ => self.halt(BrokerError::ContextHandshakeViolation),
            },
            BrokerState::ContextPublished => match event {
                BrokerEvent::Delivered => {
                    self.state = BrokerState::AwaitingActivation;
                    BrokerAction::Receive
                },
                _ => self.halt(BrokerError::ContextHandshakeViolation),
            },
            BrokerState::AwaitingActivation => match event {
                BrokerEvent::Request(UploaderMessage::SetContextCurrent) => {
                    self.state = BrokerState::Running;
                    BrokerAction::Gpu(GpuCommand::MakeCurrent)
                },
                _ => self.halt(BrokerError::ContextHandshakeViolation),
            },
            BrokerState::Running => match self.pending {
                Some(request) => self.complete(request, event),
                None => self.serve(event),
            },
            BrokerState::Terminated(error) => BrokerAction::Halt(error),
        }
    }

    /// Carries out a channel action and returns the event it ended in; GPU
    /// work and `Halt` are handed back for the worker thread to act on.
    pub fn perform(channel: &BidirChannel<UploaderMessage>, action: BrokerAction) -> (outcome:
        Result<BrokerEvent, BrokerAction>)
        ensures
            match action {
                BrokerAction::Receive => outcome matches Ok(event) && (event is Request
                    || event is PeerClosed),
                BrokerAction::Reply(_) => outcome matches Ok(event) && (event is Delivered
                    || event is PeerClosed),
                _ => outcome == Err::<BrokerEvent, BrokerAction>(action),
            },
    {
        match action {
            BrokerAction::Receive => Ok(arrival(channel.recv())),
            BrokerAction::Reply(message) => Ok(delivery(channel.send(message))),
            other => Err(other),
        }
    }

    /// One turn of the worker: a step, and the channel work it asks for.
    ///
    /// The result is the next event, or the GPU work or `Halt` that the
    /// step decided on and that is left to the caller.
    pub fn advance(&mut self, channel: &BidirChannel<UploaderMessage>, event: BrokerEvent) -> (outcome:
        Result<BrokerEvent, BrokerAction>)
        requires
            old(self)@.wf(),
        ensures
            final(self)@ == old(self)@.next(event).0,
            final(self)@.wf(),
            match old(self)@.next(event).1 {
                BrokerAction::Receive => outcome matches Ok(event) && (event is Request
                    || event is PeerClosed),
                BrokerAction::Reply(_) => outcome matches Ok(event) && (event is Delivered
                    || event is PeerClosed),
                action => outcome == Err::<BrokerEvent, BrokerAction>(action),
            },
    {
        let action = self.step(event);
        Self::perform(channel, action)
    }
}

/// The event that the end of a receive amounts to.
pub fn arrival(outcome: Result<UploaderMessage, ChannelError>) -> (event: BrokerEvent)
    ensures
        event == match outcome {
            Ok(message) => BrokerEvent::Request(message),
            Err(_) => BrokerEvent::PeerClosed,
        },
{
    match outcome {
        Ok(message) => BrokerEvent::Request(message),
        Err(_) => BrokerEvent::PeerClosed,
    }
}

/// The event that the end of a send amounts to.
pub fn delivery(outcome: Result<(), ChannelError>) -> (event: BrokerEvent)
    ensures
        event == match outcome {
            Ok(_) => BrokerEvent::Delivered,
            Err(_) => BrokerEvent::PeerClosed,
        },
{
    match outcome {
        Ok(_) => BrokerEvent::Delivered,
        Err(_) => BrokerEvent::PeerClosed,
    }
}

/// The broker's invariant survives every step.
pub proof fn lemma_next_keeps_invariant(broker: BrokerView, event: BrokerEvent)
    requires
        broker.wf(),
    ensures
        BrokerView::initial().wf(),
        broker.next(event).0.wf(),
{
    lemma_operations_keep_invariant(
        PoolView::empty(),
        TextureType::Mono,
        0,
        0,
        0,
        TextureHandle { id: 0, width: 0, height: 0 },
    );
    match event {
        BrokerEvent::Request(UploaderMessage::AcquireTexture(class, width, height)) => {
            lemma_operations_keep_invariant(
                broker.pool,
                class,
                width as nat,
                height as nat,
                0,
                TextureHandle { id: 0, width: 0, height: 0 },
            );
        },
        BrokerEvent::Request(UploaderMessage::ReleaseTexture(handle)) => {
            lemma_operations_keep_invariant(broker.pool, TextureType::Mono, 0, 0, 0, handle);
        },
        BrokerEvent::Allocated(id) => {
            if let Some(request) = broker.pending {
                lemma_operations_keep_invariant(
                    broker.pool,
                    request.class,
                    request.width as nat,
                    request.height as nat,
                    id,
                    TextureHandle { id: 0, width: 0, height: 0 },
                );
            }
        },
        _ => {},
    }
}

/// The handshake, from the first event on. A broker that has not started
/// and is given a WGL context has that context released and waits; it
/// answers `GetContext` with the shareable handle, unchanged, and then
/// makes its context current on `SetContextCurrent`. A first request that
/// is not `GetContext`, or a second that is not `SetContextCurrent`,
/// terminates it with `ContextHandshakeViolation`.
pub proof fn lemma_handshake(handle: usize, first: UploaderMessage, second: UploaderMessage)
    ensures
        ({
            let violation = BrokerError::ContextHandshakeViolation;
            let context = SharedContext { handle, platform: GlPlatform::Wgl };
            let (started, release) = BrokerView::initial().next(
                BrokerEvent::Started(RawHandle::Wgl(handle)),
            );
            let (waiting, wait) = started.next(BrokerEvent::Completed);
            let (published, answer) = waiting.next(BrokerEvent::Request(first));
            let (delivered, wait_again) = published.next(BrokerEvent::Delivered);
            let (running, activate) = delivered.next(BrokerEvent::Request(second));
            &&& release == BrokerAction::Gpu(GpuCommand::Deactivate)
            &&& wait == BrokerAction::Receive
            &&& waiting.state == BrokerState::AwaitingContextRequest
            &&& first is GetContext ==> {
                &&& answer == BrokerAction::Reply(UploaderMessage::Context(context))
                &&& published.state == BrokerState::ContextPublished
                &&& wait_again == BrokerAction::Receive
                &&& delivered.state == BrokerState::AwaitingActivation
            }
            &&& !(first is GetContext) ==> {
                &&& answer == BrokerAction::Halt(violation)
                &&& published.state == BrokerState::Terminated(violation)
            }
            &&& first is GetContext && second is SetContextCurrent ==> {
                &&& activate == BrokerAction::Gpu(GpuCommand::MakeCurrent)
                &&& running.state == BrokerState::Running
                &&& running.pool == PoolView::empty()
                &&& running.pending is None
            }
            &&& first is GetContext && !(second is SetContextCurrent) ==> {
                &&& activate == BrokerAction::Halt(violation)
                &&& running.state == BrokerState::Terminated(violation)
            }
        }),
{
}

/// Out of order means out. In each state before `Running`, a request other
/// than the one the handshake expects there terminates the broker with
/// `ContextHandshakeViolation`, whatever the request is; and a context with
/// a platform tag that cannot be shared terminates it at the start.
pub proof fn lemma_handshake_is_strict(broker: BrokerView, message: UploaderMessage, raw: RawHandle)
    ensures
        broker.state == BrokerState::Uninitialized ==> broker.next(BrokerEvent::Request(message))
            == broker.halted(BrokerError::ContextHandshakeViolation),
        broker.state == BrokerState::Uninitialized && raw is Egl ==> broker.next(
            BrokerEvent::Started(raw),
        ) == broker.halted(BrokerError::UnsupportedPlatform),
        broker.state == BrokerState::AwaitingContextRequest && !(message is GetContext)
            ==> broker.next(BrokerEvent::Request(message)) == broker.halted(
            BrokerError::ContextHandshakeViolation,
        ),
        broker.state == BrokerState::ContextPublished ==> broker.next(BrokerEvent::Request(message))
            == broker.halted(BrokerError::ContextHandshakeViolation),
        broker.state == BrokerState::AwaitingActivation && !(message is SetContextCurrent)
            ==> broker.next(BrokerEvent::Request(message)) == broker.halted(
            BrokerError::ContextHandshakeViolation,
        ),
{
}

/// Termination is final, and the loss of the peer is always fatal. The
/// worker is told to halt exactly when the step leaves the broker
/// terminated, and with the same reason; a terminated broker answers every
/// event with that reason and does not change; and `PeerClosed` terminates
/// every broker that is not terminated yet.
pub proof fn lemma_termination_is_final(broker: BrokerView, event: BrokerEvent)
    ensures
        broker.next(event).1 matches BrokerAction::Halt(error) ==> broker.next(event).0.state
            == BrokerState::Terminated(error),
        broker.next(event).0.state matches BrokerState::Terminated(error) ==> broker.next(event).1
            == BrokerAction::Halt(error),
        broker.state matches BrokerState::Terminated(error) ==> broker.next(event) == (
            broker,
            BrokerAction::Halt(error),
        ),
        !(broker.state is Terminated) ==> broker.next(BrokerEvent::PeerClosed) == broker.halted(
            BrokerError::PeerClosed,
        ),
{
}

/// A running broker replies only where a reply is due: to `AcquireTexture`,
/// at once or when the buffer it asked for has arrived. A request to load,
/// to release or to flush gets none. And `AcquireTexture` never waits: it
/// is answered with a texture or with none, or a buffer is allocated.
pub proof fn lemma_replies_answer_acquisitions(broker: BrokerView, event: BrokerEvent)
    requires
        broker.state == BrokerState::Running,
    ensures
        broker.next(event).1 matches BrokerAction::Reply(reply) ==> {
            &&& reply is Texture
            &&& broker.pending is Some ==> event is Allocated
            &&& broker.pending is None ==> (event matches BrokerEvent::Request(message)
                && message is AcquireTexture)
        },
        event matches BrokerEvent::Request(UploaderMessage::AcquireTexture(class, _, _)) ==> (
        broker.pending is None ==> match broker.next(event).1 {
            BrokerAction::Reply(reply) => reply is Texture,
            BrokerAction::Gpu(command) => command matches GpuCommand::Allocate(of, _) && of
                == class,
            _ => false,
        }),
{
}

/// A miss is followed by one allocation and one lease. When a running
/// broker is asked for a texture that no buffer of the class covers, it
/// asks for a buffer of the request's bucket; when that buffer arrives
/// under an identifier that the pool does not hold, the broker replies with
/// its handle; and the same request made again is answered with none.
pub proof fn lemma_miss_allocates_once(
    broker: BrokerView,
    class: TextureType,
    width: usize,
    height: usize,
    id: u32,
)
    requires
        broker.wf(),
        broker.state == BrokerState::Running,
        broker.pending is None,
        broker.pool.acquire(class, width as nat, height as nat).1 is Miss,
        !broker.pool.holds(id),
    ensures
        ({
            let request = UploaderMessage::AcquireTexture(class, width, height);
            let again = UploaderMessage::AcquireTexture(class, width, height);
            let side = bucket(larger(width as nat, height as nat)) as usize;
            let handle = TextureHandle { id, width: side, height: side };
            let (asked, allocate) = broker.next(BrokerEvent::Request(request));
            let (leased, answer) = asked.next(BrokerEvent::Allocated(id));
            let (refused, refusal) = leased.next(BrokerEvent::Request(again));
            &&& side == bucket(larger(width as nat, height as nat))
            &&& allocate == BrokerAction::Gpu(GpuCommand::Allocate(class, side))
            &&& answer == BrokerAction::Reply(UploaderMessage::Texture(Some(handle)))
            &&& leased.pool.entries(class).len() == broker.pool.entries(class).len() + 1
            &&& refusal == BrokerAction::Reply(UploaderMessage::Texture(None))
            &&& refused == leased
        }),
{
    lemma_repeated_request_is_refused(broker.pool, class, width as nat, height as nat, id);
}

/// The request for the context and its answer, from end to end. A broker
/// that waits for the context request answers `GetContext` with a message
/// that the producer reads as the broker's own context, unchanged.
pub proof fn lemma_context_request_is_answered(broker: BrokerView, context: SharedContext)
    requires
        broker.state == BrokerState::AwaitingContextRequest,
        broker.context == Some(context),
    ensures
        broker.next(BrokerEvent::Request(UploaderMessage::GetContext)).1 matches BrokerAction::Reply(
            reply,
        ) && context_of(reply) == Ok::<SharedContext, BrokerError>(context),
{
}

/// A request for a texture and its answer, from end to end. A running
/// broker answers `AcquireTexture(kind, width, height)` at once, or after
/// the one buffer it asks for has arrived, and the producer reads the
/// answer as follows. A texture that is granted is of the kind asked for
/// and a power-of-two square that covers the size asked for; one that was
/// allocated for the request has exactly the side of the request's bucket.
/// When no texture is granted the broker is as it was, and still runs:
/// exhaustion is an answer, not an error.
pub proof fn lemma_acquisition_is_answered(
    broker: BrokerView,
    kind: TextureType,
    width: usize,
    height: usize,
    id: u32,
)
    requires
        broker.wf(),
        broker.state == BrokerState::Running,
        broker.pending is None,
    ensures
        ({
            let request = UploaderMessage::AcquireTexture(kind, width, height);
            let (asked, action) = broker.next(BrokerEvent::Request(request));
            match action {
                BrokerAction::Reply(reply) => match texture_of(kind, reply) {
                    Ok(Some(texture)) => {
                        &&& texture.kind == kind
                        &&& texture.handle.covers(width as nat, height as nat)
                        &&& texture.handle.width == texture.handle.height
                        &&& is_pow2(texture.handle.width as int)
                        &&& asked.state == BrokerState::Running
                    },
                    Ok(None) => asked == broker,
                    Err(_) => false,
                },
                BrokerAction::Gpu(GpuCommand::Allocate(class, side)) => {
                    &&& class == kind
                    &&& side == bucket(larger(width as nat, height as nat))
                    &&& match asked.next(BrokerEvent::Allocated(id)).1 {
                        BrokerAction::Reply(reply) => texture_of(kind, reply) == Ok::<
                            Option<TextureDescription>,
                            BrokerError,
                        >(
                            Some(
                                TextureDescription {
                                    handle: TextureHandle { id, width: side, height: side },
                                    kind,
                                },
                            ),
                        ) && side >= width && side >= height,
                        BrokerAction::Halt(error) => error == BrokerError::DoubleLease
                            && broker.pool.holds(id),
                        _ => false,
                    }
                },
                _ => false,
            }
        }),
{
    lemma_granted_texture_covers(broker.pool, kind, width as nat, height as nat, id);
}

} // verus!
