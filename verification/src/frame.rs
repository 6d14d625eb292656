use vstd::prelude::*;

verus! {

/// Application payload of an outbound message: the text/binary tag travels
/// with the bytes all the way to the wire.
#[derive(Debug)]
pub enum MessageData {
    Text(String),
    Binary(Vec<u8>),
}

/// Spec-level image of a message payload.
pub enum MessageModel {
    Text(Seq<char>),
    Binary(Seq<u8>),
}

impl View for MessageData {
    type V = MessageModel;

    open spec fn view(&self) -> MessageModel {
        match self {
            MessageData::Text(s) => MessageModel::Text(s@),
            MessageData::Binary(b) => MessageModel::Binary(b@),
        }
    }
}

/// Close code and reason carried by an inbound close frame. The dispatcher
/// drops both on delivery: the close notification is payload-free.
#[derive(Debug)]
pub struct CloseInfo {
    pub code: u16,
    pub reason: String,
}

/// Spec-level image of a close frame's content.
pub struct CloseModel {
    pub code: u16,
    pub reason: Seq<char>,
}

impl View for CloseInfo {
    type V = CloseModel;

    open spec fn view(&self) -> CloseModel {
        CloseModel { code: self.code, reason: self.reason@ }
    }
}

/// One discrete WebSocket protocol frame, as the session engine sees it.
/// The wire codec that turns these into bytes is an external collaborator.
#[derive(Debug)]
pub enum Frame {
    Text(String),
    Binary(Vec<u8>),
    Ping(Vec<u8>),
    Pong(Vec<u8>),
    Close(Option<CloseInfo>),
    /// Any other control frame; the dispatcher ignores it.
    Other,
}

/// Spec-level image of a frame.
pub enum FrameModel {
    Text(Seq<char>),
    Binary(Seq<u8>),
    Ping(Seq<u8>),
    Pong(Seq<u8>),
    Close(Option<CloseModel>),
    Other,
}

impl View for Frame {
    type V = FrameModel;

    open spec fn view(&self) -> FrameModel {
        match self {
            Frame::Text(s) => FrameModel::Text(s@),
            Frame::Binary(b) => FrameModel::Binary(b@),
            Frame::Ping(b) => FrameModel::Ping(b@),
            Frame::Pong(b) => FrameModel::Pong(b@),
            Frame::Close(Some(c)) => FrameModel::Close(Some(c@)),
            Frame::Close(None) => FrameModel::Close(None),
            Frame::Other => FrameModel::Other,
        }
    }
}

/// The frame an application send request turns into: the tag is preserved.
pub open spec fn frame_of_message(d: MessageModel) -> FrameModel {
    match d {
        MessageModel::Text(s) => FrameModel::Text(s),
        MessageModel::Binary(b) => FrameModel::Binary(b),
    }
}

/// The literal bytes "ping": the default payload of an application ping.
pub open spec fn default_ping_bytes() -> Seq<u8> {
    seq![112u8, 105u8, 110u8, 103u8]
}

/// The literal bytes "pong": the payload of every automatic pong response.
pub open spec fn default_pong_bytes() -> Seq<u8> {
    seq![112u8, 111u8, 110u8, 103u8]
}

/// The default ping payload, the ASCII bytes of "ping".
pub fn default_ping_payload() -> (r: Vec<u8>)
    ensures
        r@ == default_ping_bytes(),
{
    let mut r: Vec<u8> = Vec::new();
    r.push(112u8);
    r.push(105u8);
    r.push(110u8);
    r.push(103u8);
    proof {
        assert(r@ =~= default_ping_bytes());
    }
    r
}

/// The default pong payload, the ASCII bytes of "pong".
pub fn default_pong_payload() -> (r: Vec<u8>)
    ensures
        r@ == default_pong_bytes(),
{
    let mut r: Vec<u8> = Vec::new();
    r.push(112u8);
    r.push(111u8);
    r.push(110u8);
    r.push(103u8);
    proof {
        assert(r@ =~= default_pong_bytes());
    }
    r
}

} // verus!
