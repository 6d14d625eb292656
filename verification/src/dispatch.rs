use vstd::prelude::*;

use crate::frame::{
    default_pong_bytes, default_pong_payload, FrameModel, MessageData, MessageModel,
};

verus! {

/// Which notification slots have a handler registered. Absence of a handler
/// means the corresponding event is silently dropped, never queued.
#[derive(Clone, Copy, Debug, PartialEq, Eq, Structural)]
pub struct CallbackFlags {
    pub error: bool,
    pub message: bool,
    pub open: bool,
    pub close: bool,
    pub ping: bool,
    pub pong: bool,
}

impl CallbackFlags {
    /// No handler registered anywhere.
    pub fn none() -> (r: CallbackFlags)
        ensures
            r == (CallbackFlags {
                error: false,
                message: false,
                open: false,
                close: false,
                ping: false,
                pong: false,
            }),
    {
        CallbackFlags { error: false, message: false, open: false, close: false, ping: false, pong: false }
    }
}

/// A fire-and-forget notification handed to the application; the dispatcher
/// never waits for its handler to finish.
#[derive(Debug)]
pub enum Notification {
    /// The connection is established; fired once, before any frame dispatch.
    Open,
    /// An inbound text or binary message, tag preserved.
    Message(MessageData),
    /// The session reached its terminal transition; fired at most once.
    Close,
    /// An inbound pong with its payload.
    Pong(Vec<u8>),
    /// A transport error on the read path; the read loop continues.
    Error,
}

/// Spec-level image of a notification.
pub enum NotificationModel {
    Open,
    Message(MessageModel),
    Close,
    Pong(Seq<u8>),
    Error,
}

impl View for Notification {
    type V = NotificationModel;

    open spec fn view(&self) -> NotificationModel {
        match self {
            Notification::Open => NotificationModel::Open,
            Notification::Message(d) => NotificationModel::Message(d@),
            Notification::Close => NotificationModel::Close,
            Notification::Pong(p) => NotificationModel::Pong(p@),
            Notification::Error => NotificationModel::Error,
        }
    }
}

/// What the dispatcher decides for one inbound frame. The ping round-trip is
/// the only step the loop must wait on: its reply determines the pong body.
#[derive(Debug)]
pub enum DispatchStep {
    /// Hand this notification to the application without waiting.
    Notify(Notification),
    /// Call the registered ping handler with the payload, await its reply,
    /// and feed the reply to the pong construction.
    CallPingHandler(Vec<u8>),
    /// No handler is registered for the ping: queue an automatic pong with
    /// this payload.
    AutoPong(Vec<u8>),
    /// Nothing to do for this frame.
    Ignore,
}

/// Spec-level image of a dispatch step.
pub enum StepModel {
    Notify(NotificationModel),
    CallPingHandler(Seq<u8>),
    AutoPong(Seq<u8>),
    Ignore,
}

impl View for DispatchStep {
    type V = StepModel;

    open spec fn view(&self) -> StepModel {
        match self {
            DispatchStep::Notify(n) => StepModel::Notify(n@),
            DispatchStep::CallPingHandler(p) => StepModel::CallPingHandler(p@),
            DispatchStep::AutoPong(p) => StepModel::AutoPong(p@),
            DispatchStep::Ignore => StepModel::Ignore,
        }
    }
}

/// What the awaited ping handler came back with.
#[derive(Debug)]
pub enum PingReply {
    /// The handler returned replacement bytes for the pong body.
    Payload(Vec<u8>),
    /// The handler returned nothing.
    Empty,
    /// The handler failed; the failure is swallowed, never surfaced as an
    /// error notification.
    Failed,
}

/// Spec-level image of a ping handler reply.
pub enum PingReplyModel {
    Payload(Seq<u8>),
    Empty,
    Failed,
}

impl View for PingReply {
    type V = PingReplyModel;

    open spec fn view(&self) -> PingReplyModel {
        match self {
            PingReply::Payload(p) => PingReplyModel::Payload(p@),
            PingReply::Empty => PingReplyModel::Empty,
            PingReply::Failed => PingReplyModel::Failed,
        }
    }
}

/// The pong body owed for a handler reply: the handler's bytes when it
/// returned some, the literal bytes "pong" otherwise.
pub open spec fn pong_payload_of(r: PingReplyModel) -> Seq<u8> {
    match r {
        PingReplyModel::Payload(b) => b,
        PingReplyModel::Empty => default_pong_bytes(),
        PingReplyModel::Failed => default_pong_bytes(),
    }
}

/// The dispatch table, applied to each inbound frame in arrival order.
/// `notified` records whether this session's close notification has already
/// been issued (or dropped for want of a handler).
pub open spec fn dispatch_of(cb: CallbackFlags, notified: bool, f: FrameModel) -> StepModel {
    match f {
        FrameModel::Text(t) => if cb.message {
            StepModel::Notify(NotificationModel::Message(MessageModel::Text(t)))
        } else {
            StepModel::Ignore
        },
        FrameModel::Binary(b) => if cb.message {
            StepModel::Notify(NotificationModel::Message(MessageModel::Binary(b)))
        } else {
            StepModel::Ignore
        },
        FrameModel::Close(_) => if cb.close && !notified {
            StepModel::Notify(NotificationModel::Close)
        } else {
            StepModel::Ignore
        },
        FrameModel::Ping(p) => if cb.ping {
            StepModel::CallPingHandler(p)
        } else {
            StepModel::AutoPong(default_pong_bytes())
        },
        FrameModel::Pong(p) => if cb.pong {
            StepModel::Notify(NotificationModel::Pong(p))
        } else {
            StepModel::Ignore
        },
        FrameModel::Other => StepModel::Ignore,
    }
}

/// Whether the session's close notification counts as issued after this
/// frame: an inbound close frame consumes the single close event, whether
/// or not a handler was there to receive it.
pub open spec fn notified_after(notified: bool, f: FrameModel) -> bool {
    notified || f is Close
}

/// Build the pong body for an awaited handler reply.
pub fn pong_reply_payload(r: PingReply) -> (p: Vec<u8>)
    ensures
        p@ == pong_payload_of(r@),
{
    match r {
        PingReply::Payload(b) => b,
        PingReply::Empty => default_pong_payload(),
        PingReply::Failed => default_pong_payload(),
    }
}

/// Law: with no ping handler registered, every inbound ping is answered by
/// an automatic pong whose payload is exactly the bytes "pong", whatever
/// the ping carried and whatever else is registered.
pub proof fn lemma_auto_pong(cb: CallbackFlags, notified: bool, p: Seq<u8>)
    requires
        !cb.ping,
    ensures
        dispatch_of(cb, notified, FrameModel::Ping(p)) == StepModel::AutoPong(default_pong_bytes()),
{
}

/// Law: the pong answering a ping carries the handler's returned bytes
/// exactly; when the handler returns nothing or fails, the payload is the
/// literal bytes "pong".
pub proof fn lemma_pong_reply(r: PingReplyModel)
    ensures
        r matches PingReplyModel::Payload(b) ==> pong_payload_of(r) == b,
        !(r is Payload) ==> pong_payload_of(r) == default_pong_bytes(),
{
}

} // verus!
