use vstd::prelude::*;

verus! {

/// One discrete message unit on the duplex connection.
#[derive(Debug, PartialEq, Eq)]
pub enum Frame {
    /// A liveness probe asking the peer to answer; the payload is opaque.
    ProbeRequest(Vec<u8>),
    /// The answer to a probe, carrying the probe's payload back unchanged.
    ProbeAck(Vec<u8>),
    /// Application text data.
    Text(String),
    /// Application binary data.
    Binary(Vec<u8>),
    /// An explicit request to end the session; the optional reason is
    /// deliberately discarded by the session.
    Close(Option<String>),
}

/// The mathematical model of a [`Frame`]: payloads as sequences.
pub enum FrameModel {
    ProbeRequest(Seq<u8>),
    ProbeAck(Seq<u8>),
    Text(Seq<char>),
    Binary(Seq<u8>),
    Close(Option<Seq<char>>),
}

impl View for Frame {
    type V = FrameModel;

    open spec fn view(&self) -> FrameModel {
        match self {
            Frame::ProbeRequest(p) => FrameModel::ProbeRequest(p@),
            Frame::ProbeAck(p) => FrameModel::ProbeAck(p@),
            Frame::Text(t) => FrameModel::Text(t@),
            Frame::Binary(b) => FrameModel::Binary(b@),
            Frame::Close(r) => FrameModel::Close(match r {
                Some(t) => Some(t@),
                None => None,
            }),
        }
    }
}

/// The model of an optional outbound frame: `None` when nothing goes out.
pub open spec fn reply_model(r: Option<Frame>) -> Option<FrameModel> {
    match r {
        Some(f) => Some(f@),
        None => None,
    }
}

} // verus!
