use vstd::prelude::*;

use crate::dispatch::{
    dispatch_of, notified_after, CallbackFlags, DispatchStep, Notification,
};
use crate::error::WebSocketError;
use crate::frame::{
    default_ping_bytes, default_ping_payload, frame_of_message, Frame, FrameModel, MessageData,
};
use crate::headers::{plan_headers, HeaderFailure};
use crate::queue::{same_queue, EnqueueOutcome, OutboundQueue, QUEUE_CAPACITY};

verus! {

/// Longest ping (or explicit pong) payload accepted at the send boundary.
pub const MAX_PING_LEN: usize = 128;

/// Optional configuration a session is constructed with.
pub struct WebSocketConfig {
    /// Custom certificate file path; when set, establishment loads the file,
    /// parses it as a single PEM certificate and trusts it in addition to
    /// the system store.
    pub cert_path: Option<String>,
    /// Custom headers applied to the upgrade request, in order.
    pub headers: Option<Vec<(String, String)>>,
    /// When enabled, the upgrade request advertises permessage-deflate
    /// through the extension header, inserted before the user headers.
    pub enable_extension: Option<bool>,
}

/// Lifecycle of a session.
#[derive(Clone, Copy, Debug, PartialEq, Eq, Structural)]
pub enum SessionState {
    /// Constructed, never connected.
    Idle,
    /// Establishment is under way; no frame traffic yet.
    Connecting,
    /// The duplex pump is running.
    Open,
    /// A close frame has been queued; traffic keeps flowing until the
    /// termination race resolves.
    Closing,
    /// The termination race resolved; the session is over.
    Closed,
    /// Establishment failed; terminal until the next connect attempt.
    Failed,
}

/// Where establishment failed. The session engine turns the stage into the
/// error kind reported to the caller; the stages themselves are observed by
/// the runner performing the I/O.
#[derive(Clone, Copy, Debug, PartialEq, Eq, Structural)]
pub enum EstablishStage {
    /// The certificate file could not be opened.
    CertOpen,
    /// The certificate file could not be fully read.
    CertRead,
    /// The file did not parse as a PEM certificate.
    CertParse,
    /// The TLS connector could not be built from the certificate.
    ConnectorBuild,
    /// The endpoint URL did not form a valid upgrade request.
    BadUrl,
    /// The connection or upgrade handshake failed.
    Upgrade,
}

/// What a successful connect preparation hands to the I/O runner: the
/// certificate to load (if any), the endpoint, and the validated header
/// insertions for the upgrade request, in application order.
#[derive(Debug)]
pub struct ConnectPlan {
    pub cert_path: Option<String>,
    pub url: String,
    pub headers: Vec<(String, String)>,
}

/// Result of an application send request.
#[derive(Debug)]
pub enum SendOutcome {
    /// The frame is queued in order.
    Enqueued,
    /// The queue is at capacity: the caller gets the payload back and must
    /// wait for space, resuming in enqueue order (backpressure).
    Backpressure(MessageData),
    /// The session is not open or its channel is gone.
    Rejected(WebSocketError),
}

/// Result of an application ping request.
#[derive(Debug)]
pub enum PingOutcome {
    Enqueued,
    /// Queue at capacity; payload handed back.
    Backpressure(Vec<u8>),
    /// The payload exceeds the 128-byte bound; checked before any queue
    /// interaction, so this never blocks on a full queue.
    TooLong,
    Rejected(WebSocketError),
}

/// Result of an application close request.
#[derive(Debug)]
pub enum CloseOutcome {
    Enqueued,
    /// Queue at capacity; the close frame carries nothing, so nothing is
    /// handed back.
    Backpressure,
    Rejected(WebSocketError),
}

/// Result of queueing an automatic or handler-built pong.
#[derive(Debug)]
pub enum PongOutcome {
    Enqueued,
    /// Queue at capacity; payload handed back for a retry.
    Backpressure(Vec<u8>),
    /// The session's channel is gone; the pong is silently dropped.
    Dropped,
}

/// States in which the duplex pump is running and the queue feeds the wire.
pub open spec fn is_live(s: SessionState) -> bool {
    s is Open || s is Closing
}

/// States from which a (re-)connect attempt may start.
pub open spec fn can_connect(s: SessionState) -> bool {
    s is Idle || s is Closed || s is Failed
}

/// The error kind each establishment stage is reported under.
pub open spec fn establish_error_of(stage: EstablishStage) -> WebSocketError {
    match stage {
        EstablishStage::CertOpen => WebSocketError::TlsError,
        EstablishStage::CertRead => WebSocketError::TlsError,
        EstablishStage::CertParse => WebSocketError::TlsError,
        EstablishStage::ConnectorBuild => WebSocketError::TlsError,
        EstablishStage::BadUrl => WebSocketError::ConnectError,
        EstablishStage::Upgrade => WebSocketError::ConnectError,
    }
}

/// The error kind a failed frame write is reported under: a failing close
/// frame is a `CloseError`, anything else a `SendError`.
pub open spec fn write_error_of(f: FrameModel) -> WebSocketError {
    if f is Close {
        WebSocketError::CloseError
    } else {
        WebSocketError::SendError
    }
}

/// Whether the session's single close notification fires now.
pub open spec fn close_note_fires(cb: CallbackFlags, notified: bool) -> bool {
    cb.close && !notified
}

/// Whether a send-path request is refused outright: the session is not live
/// or its channel is permanently closed.
pub open spec fn send_rejected(s: SessionState, queue_closed: bool) -> bool {
    !is_live(s) || queue_closed
}

/// An explicit ping payload above the bound is refused before any queue
/// interaction; an omitted payload defaults to "ping" and is never refused.
pub open spec fn ping_too_long(p: Option<Seq<u8>>) -> bool {
    p matches Some(b) && b.len() > MAX_PING_LEN
}

/// The effective ping payload: the given bytes, or the literal "ping".
pub open spec fn ping_payload_of(p: Option<Seq<u8>>) -> Seq<u8> {
    match p {
        Some(b) => b,
        None => default_ping_bytes(),
    }
}

/// Spec-level image of an optional byte payload.
pub open spec fn opt_payload_view(p: Option<Vec<u8>>) -> Option<Seq<u8>> {
    match p {
        Some(b) => Some(b@),
        None => None,
    }
}

/// Header pairs a configuration carries, in their given order.
pub open spec fn config_header_pairs(c: Option<WebSocketConfig>) -> Seq<(Seq<char>, Seq<char>)> {
    match c {
        Some(cfg) => match cfg.headers {
            Some(h) => h.deep_view(),
            None => Seq::empty(),
        },
        None => Seq::empty(),
    }
}

/// Whether a configuration enables the compression extension header.
pub open spec fn config_extension(c: Option<WebSocketConfig>) -> bool {
    match c {
        Some(cfg) => match cfg.enable_extension {
            Some(b) => b,
            None => false,
        },
        None => false,
    }
}

/// The certificate path a configuration carries.
pub open spec fn config_cert_path(c: Option<WebSocketConfig>) -> Option<Seq<char>> {
    match c {
        Some(cfg) => match cfg.cert_path {
            Some(p) => Some(p@),
            None => None,
        },
        None => None,
    }
}

/// A client WebSocket session: an immutable endpoint plus configuration,
/// the registration flags, the lifecycle state, the single-session close
/// marker and the outbound queue feeding the write half.
pub struct WebSocket {
    url: String,
    config: Option<WebSocketConfig>,
    callbacks: CallbackFlags,
    phase: SessionState,
    close_done: bool,
    outbound: OutboundQueue,
}

/// The endpoint and configuration are identical: they are fixed at
/// construction and never mutated afterwards.
pub open spec fn same_core(a: WebSocket, b: WebSocket) -> bool {
    &&& a.endpoint() == b.endpoint()
    &&& a.header_pairs() == b.header_pairs()
    &&& a.extension_enabled() == b.extension_enabled()
    &&& a.cert_path_spec() == b.cert_path_spec()
}

impl WebSocket {
    /// Lifecycle state of the session.
    pub closed spec fn state(self) -> SessionState {
        self.phase
    }

    /// Which notification handlers are registered.
    pub closed spec fn cb(self) -> CallbackFlags {
        self.callbacks
    }

    /// Whether this session's close notification has been issued (or
    /// dropped for want of a handler).
    pub closed spec fn close_notified(self) -> bool {
        self.close_done
    }

    /// The outbound queue of the current session.
    pub closed spec fn out_queue(self) -> OutboundQueue {
        self.outbound
    }

    /// The endpoint URL.
    pub closed spec fn endpoint(self) -> Seq<char> {
        self.url@
    }

    /// The configured custom headers, in order.
    pub closed spec fn header_pairs(self) -> Seq<(Seq<char>, Seq<char>)> {
        config_header_pairs(self.config)
    }

    /// Whether the compression extension header is requested.
    pub closed spec fn extension_enabled(self) -> bool {
        config_extension(self.config)
    }

    /// The configured certificate path.
    pub closed spec fn cert_path_spec(self) -> Option<Seq<char>> {
        config_cert_path(self.config)
    }

    /// The session's invariant: its queue is well-formed.
    pub open spec fn wf(self) -> bool {
        self.out_queue().wf()
    }

    /// Construct a session for an endpoint. Nothing connects yet; no
    /// handler is registered.
    pub fn new(url: String, config: Option<WebSocketConfig>) -> (ws: WebSocket)
        ensures
            ws.wf(),
            ws.state() is Idle,
            ws.cb() == (CallbackFlags {
                error: false,
                message: false,
                open: false,
                close: false,
                ping: false,
                pong: false,
            }),
            !ws.close_notified(),
            ws.endpoint() == url@,
            ws.header_pairs() == config_header_pairs(config),
            ws.extension_enabled() == config_extension(config),
            ws.cert_path_spec() == config_cert_path(config),
            ws.out_queue().pending() == Seq::<FrameModel>::empty(),
            !ws.out_queue().is_closed(),
    {
        WebSocket {
            url,
            config,
            callbacks: CallbackFlags::none(),
            phase: SessionState::Idle,
            close_done: false,
            outbound: OutboundQueue::new(),
        }
    }

    /// Current lifecycle state.
    pub fn current_state(&self) -> (s: SessionState)
        ensures
            s == self.state(),
    {
        self.phase
    }

    /// Register the error handler; re-registration overwrites.
    pub fn on_error(&mut self)
        ensures
            final(self).cb() == (CallbackFlags { error: true, ..old(self).cb() }),
            same_core(*final(self), *old(self)),
            final(self).state() == old(self).state(),
            final(self).close_notified() == old(self).close_notified(),
            same_queue(final(self).out_queue(), old(self).out_queue()),
    {
        self.callbacks.error = true;
    }

    /// Register the message handler; re-registration overwrites.
    pub fn on_message(&mut self)
        ensures
            final(self).cb() == (CallbackFlags { message: true, ..old(self).cb() }),
            same_core(*final(self), *old(self)),
            final(self).state() == old(self).state(),
            final(self).close_notified() == old(self).close_notified(),
            same_queue(final(self).out_queue(), old(self).out_queue()),
    {
        self.callbacks.message = true;
    }

    /// Register the open handler; re-registration overwrites.
    pub fn on_open(&mut self)
        ensures
            final(self).cb() == (CallbackFlags { open: true, ..old(self).cb() }),
            same_core(*final(self), *old(self)),
            final(self).state() == old(self).state(),
            final(self).close_notified() == old(self).close_notified(),
            same_queue(final(self).out_queue(), old(self).out_queue()),
    {
        self.callbacks.open = true;
    }

    /// Register the close handler; re-registration overwrites.
    pub fn on_close(&mut self)
        ensures
            final(self).cb() == (CallbackFlags { close: true, ..old(self).cb() }),
            same_core(*final(self), *old(self)),
            final(self).state() == old(self).state(),
            final(self).close_notified() == old(self).close_notified(),
            same_queue(final(self).out_queue(), old(self).out_queue()),
    {
        self.callbacks.close = true;
    }

    /// Register the ping handler; re-registration overwrites. With it set,
    /// inbound pings are answered with the handler's bytes.
    pub fn on_ping(&mut self)
        ensures
            final(self).cb() == (CallbackFlags { ping: true, ..old(self).cb() }),
            same_core(*final(self), *old(self)),
            final(self).state() == old(self).state(),
            final(self).close_notified() == old(self).close_notified(),
            same_queue(final(self).out_queue(), old(self).out_queue()),
    {
        self.callbacks.ping = true;
    }

    /// Register the pong handler; re-registration overwrites.
    pub fn on_pong(&mut self)
        ensures
            final(self).cb() == (CallbackFlags { pong: true, ..old(self).cb() }),
            same_core(*final(self), *old(self)),
            final(self).state() == old(self).state(),
            final(self).close_notified() == old(self).close_notified(),
            same_queue(final(self).out_queue(), old(self).out_queue()),
    {
        self.callbacks.pong = true;
    }

    /// Start a (re-)connect attempt: validate the configured headers and
    /// lay out the establishment plan. A header failure is terminal for the
    /// attempt — the state turns `Failed`, no notification fires, and the
    /// failure names the offending key. Success moves to `Connecting`; the
    /// previous session's queue is left behind untouched (in-flight frames
    /// of the old session are not migrated).
    pub fn begin_connect(&mut self) -> (r: Result<ConnectPlan, HeaderFailure>)
        requires
            old(self).wf(),
            can_connect(old(self).state()),
        ensures
            final(self).wf(),
            same_core(*final(self), *old(self)),
            final(self).cb() == old(self).cb(),
            final(self).close_notified() == old(self).close_notified(),
            same_queue(final(self).out_queue(), old(self).out_queue()),
            r matches Ok(plan) ==> {
                &&& final(self).state() is Connecting
                &&& plan.url@ == old(self).endpoint()
                &&& plan.cert_path.deep_view() == old(self).cert_path_spec()
                &&& plan.headers.deep_view() == crate::headers::plan_model(
                    old(self).header_pairs(),
                    old(self).extension_enabled(),
                )
                &&& forall|j: int|
                    0 <= j < old(self).header_pairs().len() ==> crate::headers::entry_valid(
                        #[trigger] old(self).header_pairs()[j],
                    )
                &&& forall|j: int|
                    0 <= j < plan.headers.deep_view().len() ==> crate::headers::valid_header_name(
                        (#[trigger] plan.headers.deep_view()[j]).0,
                    )
            },
            r matches Err(f) ==> final(self).state() is Failed
                && crate::headers::failure_names_first_invalid(
                old(self).header_pairs(),
                f.key@,
                f.problem,
            ),
    {
        let empty_headers: Vec<(String, String)> = Vec::new();
        let enable = match &self.config {
            Some(c) => match c.enable_extension {
                Some(b) => b,
                None => false,
            },
            None => false,
        };
        let plan_result = match &self.config {
            Some(c) => match &c.headers {
                Some(h) => plan_headers(h, enable),
                None => plan_headers(&empty_headers, enable),
            },
            None => plan_headers(&empty_headers, enable),
        };
        proof {
            assert(empty_headers.deep_view() =~= Seq::<(Seq<char>, Seq<char>)>::empty());
        }
        match plan_result {
            Ok(hdrs) => {
                let cert = match &self.config {
                    Some(c) => match &c.cert_path {
                        Some(p) => Some(p.clone()),
                        None => None,
                    },
                    None => None,
                };
                let url = self.url.clone();
                self.phase = SessionState::Connecting;
                Ok(ConnectPlan { cert_path: cert, url, headers: hdrs })
            },
            Err(f) => {
                self.phase = SessionState::Failed;
                Err(f)
            },
        }
    }

    /// Record that establishment failed at the given stage. The attempt is
    /// over: the state turns `Failed` and the caller receives the error
    /// kind owed for the stage — certificate trouble is `TlsError`, URL and
    /// upgrade trouble `ConnectError`. No notification fires for a failed
    /// attempt.
    pub fn establish_failed(&mut self, stage: EstablishStage) -> (e: WebSocketError)
        requires
            old(self).wf(),
            old(self).state() is Connecting,
        ensures
            final(self).wf(),
            e == establish_error_of(stage),
            final(self).state() is Failed,
            same_core(*final(self), *old(self)),
            final(self).cb() == old(self).cb(),
            final(self).close_notified() == old(self).close_notified(),
            same_queue(final(self).out_queue(), old(self).out_queue()),
    {
        self.phase = SessionState::Failed;
        match stage {
            EstablishStage::CertOpen => WebSocketError::TlsError,
            EstablishStage::CertRead => WebSocketError::TlsError,
            EstablishStage::CertParse => WebSocketError::TlsError,
            EstablishStage::ConnectorBuild => WebSocketError::TlsError,
            EstablishStage::BadUrl => WebSocketError::ConnectError,
            EstablishStage::Upgrade => WebSocketError::ConnectError,
        }
    }

    /// Record the successful upgrade: the session opens with a fresh, empty
    /// queue (any lingering slot of a previous session is discarded), the
    /// close marker is reset, and the open notification is owed — exactly
    /// once, before any frame dispatch — iff an open handler is registered.
    pub fn upgrade_succeeded(&mut self) -> (r: Option<Notification>)
        requires
            old(self).wf(),
            old(self).state() is Connecting,
        ensures
            final(self).wf(),
            final(self).state() is Open,
            same_core(*final(self), *old(self)),
            final(self).cb() == old(self).cb(),
            !final(self).close_notified(),
            final(self).out_queue().pending() == Seq::<FrameModel>::empty(),
            !final(self).out_queue().is_closed(),
            final(self).out_queue().history() == Seq::<FrameModel>::empty(),
            final(self).out_queue().drained() == Seq::<FrameModel>::empty(),
            r is Some <==> old(self).cb().open,
            r matches Some(n) ==> n@ == crate::dispatch::NotificationModel::Open,
    {
        self.outbound = OutboundQueue::new();
        self.close_done = false;
        self.phase = SessionState::Open;
        if self.callbacks.open {
            Some(Notification::Open)
        } else {
            None
        }
    }

    /// Dispatch one inbound frame, in arrival order. The returned step is
    /// everything the frame calls for: a fire-and-forget notification, the
    /// awaited ping round-trip, an automatic pong, or nothing. The close
    /// notification is consumed by the first inbound close frame.
    pub fn handle_frame(&mut self, f: Frame) -> (r: DispatchStep)
        requires
            old(self).wf(),
            is_live(old(self).state()),
        ensures
            final(self).wf(),
            r@ == dispatch_of(old(self).cb(), old(self).close_notified(), f@),
            final(self).close_notified() == notified_after(old(self).close_notified(), f@),
            final(self).state() == old(self).state(),
            same_core(*final(self), *old(self)),
            final(self).cb() == old(self).cb(),
            same_queue(final(self).out_queue(), old(self).out_queue()),
    {
        match f {
            Frame::Text(t) => if self.callbacks.message {
                DispatchStep::Notify(Notification::Message(MessageData::Text(t)))
            } else {
                DispatchStep::Ignore
            },
            Frame::Binary(b) => if self.callbacks.message {
                DispatchStep::Notify(Notification::Message(MessageData::Binary(b)))
            } else {
                DispatchStep::Ignore
            },
            Frame::Close(_) => {
                let already = self.close_done;
                self.close_done = true;
                if self.callbacks.close && !already {
                    DispatchStep::Notify(Notification::Close)
                } else {
                    DispatchStep::Ignore
                }
            },
            Frame::Ping(p) => if self.callbacks.ping {
                DispatchStep::CallPingHandler(p)
            } else {
                DispatchStep::AutoPong(crate::frame::default_pong_payload())
            },
            Frame::Pong(p) => if self.callbacks.pong {
                DispatchStep::Notify(Notification::Pong(p))
            } else {
                DispatchStep::Ignore
            },
            Frame::Other => DispatchStep::Ignore,
        }
    }

    /// Report a transport error on the read path: the error notification is
    /// owed iff a handler is registered, and the read loop continues — only
    /// stream termination ends it.
    pub fn handle_read_error(&mut self) -> (r: Option<Notification>)
        requires
            old(self).wf(),
            is_live(old(self).state()),
        ensures
            final(self).wf(),
            r is Some <==> old(self).cb().error,
            r matches Some(n) ==> n@ == crate::dispatch::NotificationModel::Error,
            final(self).state() == old(self).state(),
            same_core(*final(self), *old(self)),
            final(self).cb() == old(self).cb(),
            final(self).close_notified() == old(self).close_notified(),
            same_queue(final(self).out_queue(), old(self).out_queue()),
    {
        if self.callbacks.error {
            Some(Notification::Error)
        } else {
            None
        }
    }

    /// The inbound stream ended (remote close or read failure): the session
    /// is over. The queue closes so every later send-path request is
    /// refused, and the close notification is owed iff a close handler is
    /// registered and the notification has not already been consumed.
    pub fn stream_ended(&mut self) -> (r: Option<Notification>)
        requires
            old(self).wf(),
            is_live(old(self).state()),
        ensures
            final(self).wf(),
            final(self).state() is Closed,
            final(self).out_queue().is_closed(),
            final(self).out_queue().pending() == old(self).out_queue().pending(),
            final(self).out_queue().history() == old(self).out_queue().history(),
            final(self).out_queue().drained() == old(self).out_queue().drained(),
            r is Some <==> close_note_fires(old(self).cb(), old(self).close_notified()),
            r matches Some(n) ==> n@ == crate::dispatch::NotificationModel::Close,
            final(self).close_notified(),
            same_core(*final(self), *old(self)),
            final(self).cb() == old(self).cb(),
    {
        self.phase = SessionState::Closed;
        self.outbound.close();
        let already = self.close_done;
        self.close_done = true;
        if self.callbacks.close && !already {
            Some(Notification::Close)
        } else {
            None
        }
    }

    /// The outbound side finished first (every producer gone and the queue
    /// drained): the session is over. The loser of the termination race is
    /// abandoned, and no close notification fires for this transition.
    pub fn outbound_finished(&mut self)
        requires
            old(self).wf(),
            is_live(old(self).state()),
        ensures
            final(self).wf(),
            final(self).state() is Closed,
            final(self).out_queue().is_closed(),
            final(self).out_queue().pending() == old(self).out_queue().pending(),
            final(self).out_queue().history() == old(self).out_queue().history(),
            final(self).out_queue().drained() == old(self).out_queue().drained(),
            final(self).close_notified() == old(self).close_notified(),
            same_core(*final(self), *old(self)),
            final(self).cb() == old(self).cb(),
    {
        self.phase = SessionState::Closed;
        self.outbound.close();
    }

    /// Queue a text or binary message, preserving its tag. Refused with
    /// `SendError` when the session is not live or its channel is closed;
    /// handed back under backpressure; otherwise appended after every frame
    /// enqueued earlier by any caller.
    pub fn send(&mut self, data: MessageData) -> (r: SendOutcome)
        requires
            old(self).wf(),
        ensures
            final(self).wf(),
            final(self).state() == old(self).state(),
            same_core(*final(self), *old(self)),
            final(self).cb() == old(self).cb(),
            final(self).close_notified() == old(self).close_notified(),
            send_rejected(old(self).state(), old(self).out_queue().is_closed()) ==> (
            r matches SendOutcome::Rejected(e) && e == WebSocketError::SendError) && same_queue(
                final(self).out_queue(),
                old(self).out_queue(),
            ),
            !send_rejected(old(self).state(), old(self).out_queue().is_closed())
                && old(self).out_queue().pending().len() >= QUEUE_CAPACITY ==> (
            r matches SendOutcome::Backpressure(d) && d@ == data@) && same_queue(
                final(self).out_queue(),
                old(self).out_queue(),
            ),
            !send_rejected(old(self).state(), old(self).out_queue().is_closed()) && old(
                self,
            ).out_queue().pending().len() < QUEUE_CAPACITY ==> {
                &&& r is Enqueued
                &&& final(self).out_queue().pending() == old(self).out_queue().pending().push(
                    frame_of_message(data@),
                )
                &&& final(self).out_queue().history() == old(self).out_queue().history().push(
                    frame_of_message(data@),
                )
                &&& final(self).out_queue().drained() == old(self).out_queue().drained()
                &&& !final(self).out_queue().is_closed()
            },
    {
        let live = self.phase == SessionState::Open || self.phase == SessionState::Closing;
        if !live {
            return SendOutcome::Rejected(WebSocketError::SendError);
        }
        let frame = match data {
            MessageData::Text(t) => Frame::Text(t),
            MessageData::Binary(b) => Frame::Binary(b),
        };
        match self.outbound.enqueue(frame) {
            EnqueueOutcome::Accepted => SendOutcome::Enqueued,
            EnqueueOutcome::Full(g) => {
                let back = match g {
                    Frame::Text(t) => MessageData::Text(t),
                    Frame::Binary(b) => MessageData::Binary(b),
                    _ => {
                        proof {
                            assert(false);
                        }
                        unreached()
                    },
                };
                SendOutcome::Backpressure(back)
            },
            EnqueueOutcome::Closed(_) => SendOutcome::Rejected(WebSocketError::SendError),
        }
    }

    /// Queue a ping. The payload defaults to the literal bytes "ping"; an
    /// explicit payload longer than 128 bytes is refused by the length
    /// check alone, before any queue interaction, whatever the session and
    /// queue state.
    pub fn ping(&mut self, payload: Option<Vec<u8>>) -> (r: PingOutcome)
        requires
            old(self).wf(),
        ensures
            final(self).wf(),
            final(self).state() == old(self).state(),
            same_core(*final(self), *old(self)),
            final(self).cb() == old(self).cb(),
            final(self).close_notified() == old(self).close_notified(),
            ping_too_long(opt_payload_view(payload)) ==> r is TooLong && same_queue(
                final(self).out_queue(),
                old(self).out_queue(),
            ),
            !ping_too_long(opt_payload_view(payload)) && send_rejected(
                old(self).state(),
                old(self).out_queue().is_closed(),
            ) ==> (r matches PingOutcome::Rejected(e) && e == WebSocketError::SendError)
                && same_queue(final(self).out_queue(), old(self).out_queue()),
            !ping_too_long(opt_payload_view(payload)) && !send_rejected(
                old(self).state(),
                old(self).out_queue().is_closed(),
            ) && old(self).out_queue().pending().len() >= QUEUE_CAPACITY ==> (
            r matches PingOutcome::Backpressure(b) && b@ == ping_payload_of(opt_payload_view(payload)))
                && same_queue(final(self).out_queue(), old(self).out_queue()),
            !ping_too_long(opt_payload_view(payload)) && !send_rejected(
                old(self).state(),
                old(self).out_queue().is_closed(),
            ) && old(self).out_queue().pending().len() < QUEUE_CAPACITY ==> {
                &&& r is Enqueued
                &&& final(self).out_queue().pending() == old(self).out_queue().pending().push(
                    FrameModel::Ping(ping_payload_of(opt_payload_view(payload))),
                )
                &&& final(self).out_queue().history() == old(self).out_queue().history().push(
                    FrameModel::Ping(ping_payload_of(opt_payload_view(payload))),
                )
                &&& final(self).out_queue().drained() == old(self).out_queue().drained()
                &&& !final(self).out_queue().is_closed()
            },
    {
        let body: Vec<u8> = match payload {
            Some(b) => b,
            None => default_ping_payload(),
        };
        if body.len() > MAX_PING_LEN {
            return PingOutcome::TooLong;
        }
        let live = self.phase == SessionState::Open || self.phase == SessionState::Closing;
        if !live {
            return PingOutcome::Rejected(WebSocketError::SendError);
        }
        match self.outbound.enqueue(Frame::Ping(body)) {
            EnqueueOutcome::Accepted => PingOutcome::Enqueued,
            EnqueueOutcome::Full(g) => {
                let back = match g {
                    Frame::Ping(b) => b,
                    _ => {
                        proof {
                            assert(false);
                        }
                        unreached()
                    },
                };
                PingOutcome::Backpressure(back)
            },
            EnqueueOutcome::Closed(_) => PingOutcome::Rejected(WebSocketError::SendError),
        }
    }

    /// Queue a close frame with no code or reason: a best-effort request
    /// that does not wait for the remote acknowledgement. On success an
    /// open session turns `Closing`; failures are reported as `CloseError`.
    pub fn close(&mut self) -> (r: CloseOutcome)
        requires
            old(self).wf(),
        ensures
            final(self).wf(),
            same_core(*final(self), *old(self)),
            final(self).cb() == old(self).cb(),
            final(self).close_notified() == old(self).close_notified(),
            send_rejected(old(self).state(), old(self).out_queue().is_closed()) ==> (
            r matches CloseOutcome::Rejected(e) && e == WebSocketError::CloseError) && same_queue(
                final(self).out_queue(),
                old(self).out_queue(),
            ) && final(self).state() == old(self).state(),
            !send_rejected(old(self).state(), old(self).out_queue().is_closed())
                && old(self).out_queue().pending().len() >= QUEUE_CAPACITY ==> r
                is Backpressure && same_queue(final(self).out_queue(), old(self).out_queue())
                && final(self).state() == old(self).state(),
            !send_rejected(old(self).state(), old(self).out_queue().is_closed()) && old(
                self,
            ).out_queue().pending().len() < QUEUE_CAPACITY ==> {
                &&& r is Enqueued
                &&& final(self).out_queue().pending() == old(self).out_queue().pending().push(
                    FrameModel::Close(None),
                )
                &&& final(self).out_queue().history() == old(self).out_queue().history().push(
                    FrameModel::Close(None),
                )
                &&& final(self).out_queue().drained() == old(self).out_queue().drained()
                &&& !final(self).out_queue().is_closed()
                &&& final(self).state() == (if old(self).state() is Open {
                    SessionState::Closing
                } else {
                    old(self).state()
                })
            },
    {
        let live = self.phase == SessionState::Open || self.phase == SessionState::Closing;
        if !live {
            return CloseOutcome::Rejected(WebSocketError::CloseError);
        }
        match self.outbound.enqueue(Frame::Close(None)) {
            EnqueueOutcome::Accepted => {
                if self.phase == SessionState::Open {
                    self.phase = SessionState::Closing;
                }
                CloseOutcome::Enqueued
            },
            EnqueueOutcome::Full(_) => CloseOutcome::Backpressure,
            EnqueueOutcome::Closed(_) => CloseOutcome::Rejected(WebSocketError::CloseError),
        }
    }

    /// Queue the pong answering an inbound ping. A pong whose session is
    /// gone is silently dropped, as the read loop cannot fail a peer's
    /// ping; under backpressure the payload is handed back for a retry.
    pub fn queue_pong(&mut self, payload: Vec<u8>) -> (r: PongOutcome)
        requires
            old(self).wf(),
        ensures
            final(self).wf(),
            final(self).state() == old(self).state(),
            same_core(*final(self), *old(self)),
            final(self).cb() == old(self).cb(),
            final(self).close_notified() == old(self).close_notified(),
            send_rejected(old(self).state(), old(self).out_queue().is_closed()) ==> r is Dropped
                && same_queue(final(self).out_queue(), old(self).out_queue()),
            !send_rejected(old(self).state(), old(self).out_queue().is_closed())
                && old(self).out_queue().pending().len() >= QUEUE_CAPACITY ==> (
            r matches PongOutcome::Backpressure(b) && b@ == payload@) && same_queue(
                final(self).out_queue(),
                old(self).out_queue(),
            ),
            !send_rejected(old(self).state(), old(self).out_queue().is_closed()) && old(
                self,
            ).out_queue().pending().len() < QUEUE_CAPACITY ==> {
                &&& r is Enqueued
                &&& final(self).out_queue().pending() == old(self).out_queue().pending().push(
                    FrameModel::Pong(payload@),
                )
                &&& final(self).out_queue().history() == old(self).out_queue().history().push(
                    FrameModel::Pong(payload@),
                )
                &&& final(self).out_queue().drained() == old(self).out_queue().drained()
                &&& !final(self).out_queue().is_closed()
            },
    {
        let live = self.phase == SessionState::Open || self.phase == SessionState::Closing;
        if !live {
            return PongOutcome::Dropped;
        }
        match self.outbound.enqueue(Frame::Pong(payload)) {
            EnqueueOutcome::Accepted => PongOutcome::Enqueued,
            EnqueueOutcome::Full(g) => {
                let back = match g {
                    Frame::Pong(b) => b,
                    _ => {
                        proof {
                            assert(false);
                        }
                        unreached()
                    },
                };
                PongOutcome::Backpressure(back)
            },
            EnqueueOutcome::Closed(_) => PongOutcome::Dropped,
        }
    }

    /// Hand the oldest queued frame to the single drain consumer, which
    /// writes it to the network sink. Frames come out in strict FIFO order.
    pub fn drain_next(&mut self) -> (r: Option<Frame>)
        requires
            old(self).wf(),
        ensures
            final(self).wf(),
            final(self).state() == old(self).state(),
            same_core(*final(self), *old(self)),
            final(self).cb() == old(self).cb(),
            final(self).close_notified() == old(self).close_notified(),
            old(self).out_queue().pending().len() == 0 ==> r is None && same_queue(
                final(self).out_queue(),
                old(self).out_queue(),
            ),
            old(self).out_queue().pending().len() > 0 ==> {
                &&& r matches Some(g) && g@ == old(self).out_queue().pending()[0]
                &&& final(self).out_queue().pending() == old(self).out_queue().pending().drop_first()
                &&& final(self).out_queue().drained() == old(self).out_queue().drained().push(
                    old(self).out_queue().pending()[0],
                )
                &&& final(self).out_queue().history() == old(self).out_queue().history()
                &&& final(self).out_queue().is_closed() == old(self).out_queue().is_closed()
            },
    {
        self.outbound.dequeue()
    }

    /// The error kind owed when writing this frame to the sink fails: a
    /// failing close frame is a `CloseError`, anything else a `SendError`.
    /// A write failure fails that frame's operation only; the drain loop
    /// itself continues.
    pub fn write_failure_kind(&self, f: &Frame) -> (e: WebSocketError)
        ensures
            e == write_error_of(f@),
    {
        match f {
            Frame::Close(_) => WebSocketError::CloseError,
            _ => WebSocketError::SendError,
        }
    }
}

/// Law: an oversized explicit ping payload — any length strictly above 128
/// — is refused by the length check alone. The verdict depends only on the
/// payload, never on the session or queue state, so the refusal happens
/// before any queue interaction.
pub proof fn lemma_ping_length_check(p: Seq<u8>)
    requires
        p.len() > MAX_PING_LEN,
    ensures
        ping_too_long(Some(p)),
        !ping_too_long(None),
{
}

/// Law: once a session's close notification has been consumed, no event
/// raises it again — no inbound frame dispatch yields a close notification
/// and the terminal transition does not fire it — and once the session is
/// closed, every send is rejected with `SendError` whatever the queue
/// state.
pub proof fn lemma_close_once_and_send_fails(cb: CallbackFlags, f: FrameModel)
    ensures
        !close_note_fires(cb, true),
        dispatch_of(cb, true, f) != crate::dispatch::StepModel::Notify(
            crate::dispatch::NotificationModel::Close,
        ),
        forall|qc: bool| send_rejected(SessionState::Closed, qc),
{
}

/// Law: certificate failures — opening, reading or parsing the file, or
/// building the connector — are reported as `TlsError`; URL and upgrade
/// failures as `ConnectError`. A failed establishment is terminal and never
/// live, so no frame is dispatched and no open or close notification can
/// arise from it.
pub proof fn lemma_establish_failure_kinds(stage: EstablishStage)
    ensures
        (stage is CertOpen || stage is CertRead || stage is CertParse
            || stage is ConnectorBuild) ==> establish_error_of(stage) == WebSocketError::TlsError,
        (stage is BadUrl || stage is Upgrade) ==> establish_error_of(stage)
            == WebSocketError::ConnectError,
        !is_live(SessionState::Failed),
{
}

} // verus!
