//! The canonical frame model.
//!
//! Both connection implementations convert their native frame types to and
//! from [`Frame`], so the forwarding loops never depend on which transport
//! they are bridging. Conversion is structure-preserving for `Text`, `Binary`,
//! `Ping` and `Pong`; a `Close` frame loses its code and reason on the way
//! through ([`normalize`]) — a deliberate simplification of the current
//! design, kept visible in the variant shape rather than buried in
//! conversion code.

use vstd::prelude::*;

verus! {

/// Termination metadata carried by a close frame: a numeric status code and a
/// textual reason.
#[derive(Debug, PartialEq, Eq)]
pub struct CloseInfo {
    pub code: u16,
    pub reason: String,
}

/// One discrete message unit exchanged over a frame-oriented connection.
#[derive(Debug, PartialEq, Eq)]
pub enum Frame {
    /// UTF-8 text payload.
    Text(String),
    /// Arbitrary bytes.
    Binary(Vec<u8>),
    /// Keepalive probe with opaque payload.
    Ping(Vec<u8>),
    /// Keepalive response with opaque payload.
    Pong(Vec<u8>),
    /// Connection-termination signal, with optional code and reason.
    Close(Option<CloseInfo>),
}

/// Mathematical image of [`CloseInfo`].
pub struct CloseModel {
    pub code: u16,
    pub reason: Seq<char>,
}

/// Mathematical image of a [`Frame`].
pub enum FrameModel {
    Text(Seq<char>),
    Binary(Seq<u8>),
    Ping(Seq<u8>),
    Pong(Seq<u8>),
    Close(Option<CloseModel>),
}

impl View for CloseInfo {
    type V = CloseModel;

    open spec fn view(&self) -> CloseModel {
        CloseModel { code: self.code, reason: self.reason@ }
    }
}

impl View for Frame {
    type V = FrameModel;

    open spec fn view(&self) -> FrameModel {
        match self {
            Frame::Text(s) => FrameModel::Text(s@),
            Frame::Binary(b) => FrameModel::Binary(b@),
            Frame::Ping(b) => FrameModel::Ping(b@),
            Frame::Pong(b) => FrameModel::Pong(b@),
            Frame::Close(c) => FrameModel::Close(
                match c {
                    Some(info) => Some(info@),
                    None => None,
                },
            ),
        }
    }
}

/// The canonical image of a frame after it has passed through the relay:
/// `Text`, `Binary`, `Ping` and `Pong` are kept exactly as they are; a
/// `Close`, whatever code and reason it carries, becomes a bare `Close`.
pub open spec fn canonical(m: FrameModel) -> FrameModel {
    match m {
        FrameModel::Close(_) => FrameModel::Close(None),
        _ => m,
    }
}

/// Normalize a frame on its way through the relay. Total and non-failing:
/// every frame maps to exactly its canonical image.
pub fn normalize(f: Frame) -> (r: Frame)
    ensures
        r@ == canonical(f@),
{
    match f {
        Frame::Close(_) => Frame::Close(None),
        other => other,
    }
}

/// An identical copy of a frame, payloads included.
pub fn clone_frame(f: &Frame) -> (r: Frame)
    ensures
        r@ == f@,
{
    match f {
        Frame::Text(s) => Frame::Text(s.clone()),
        Frame::Binary(b) => Frame::Binary(copy_bytes(b)),
        Frame::Ping(b) => Frame::Ping(copy_bytes(b)),
        Frame::Pong(b) => Frame::Pong(copy_bytes(b)),
        Frame::Close(None) => Frame::Close(None),
        Frame::Close(Some(info)) => Frame::Close(
            Some(CloseInfo { code: info.code, reason: info.reason.clone() }),
        ),
    }
}

/// An identical copy of a byte payload.
fn copy_bytes(b: &Vec<u8>) -> (r: Vec<u8>)
    ensures
        r@ == b@,
{
    let mut r: Vec<u8> = Vec::new();
    let mut i: usize = 0;
    while i < b.len()
        invariant
            i <= b@.len(),
            r@ == b@.subrange(0, i as int),
        decreases b@.len() - i,
    {
        r.push(b[i]);
        i = i + 1;
        proof {
            assert(r@ =~= b@.subrange(0, i as int));
        }
    }
    proof {
        assert(r@ =~= b@);
    }
    r
}

/// Normalization is structure-preserving: a frame that is not a `Close`
/// passes through the relay unmodified.
pub proof fn lemma_canonical_keeps_non_close(m: FrameModel)
    requires
        !(m is Close),
    ensures
        canonical(m) == m,
{
}

/// Every close frame, whatever code and reason it carries, maps to a bare
/// close with no metadata.
pub proof fn lemma_canonical_bares_close(m: FrameModel)
    requires
        m is Close,
    ensures
        canonical(m) == FrameModel::Close(None),
{
}

/// Normalizing an already-normalized frame changes nothing, so a frame
/// relayed through any chain of hops looks exactly as it did after one.
pub proof fn lemma_canonical_idempotent(m: FrameModel)
    ensures
        canonical(canonical(m)) == canonical(m),
{
}

} // verus!
