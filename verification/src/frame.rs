//! Bus frames and the typed bus adapter.
//!
//! A frame is a standard-addressing packet: an 11-bit identifier plus a
//! payload of at most eight bytes. The adapter matches a frame's identifier
//! against a requested type's identity and, only on match, runs the wire
//! codec; on encode it tags the payload with the type's identity.

use vstd::prelude::*;

use crate::codec::CanID;
use crate::codec::CanMessage;

verus! {

/// Largest standard (11-bit) identifier, plus one.
pub const STANDARD_ID_LIMIT: u16 = 0x800;

/// Largest payload a frame can carry, in bytes.
pub const MAX_PAYLOAD_LEN: usize = 8;

/// The mathematical content of a frame: its identifier and payload bytes.
pub struct FrameView {
    pub id: u16,
    pub payload: Seq<u8>,
}

impl FrameView {
    /// A frame carries an 11-bit identifier and at most eight payload bytes.
    pub open spec fn wf(self) -> bool {
        self.id < STANDARD_ID_LIMIT && self.payload.len() <= MAX_PAYLOAD_LEN
    }
}

/// One bus packet: identifier plus payload bytes.
pub struct Frame {
    id: u16,
    payload: Vec<u8>,
}

impl View for Frame {
    type V = FrameView;

    closed spec fn view(&self) -> FrameView {
        FrameView { id: self.id, payload: self.payload@ }
    }
}

impl Frame {
    /// Builds a standard frame; rejects an identifier outside the 11-bit
    /// range or a payload longer than eight bytes, and nothing else.
    pub fn new_standard(id: u16, payload: Vec<u8>) -> (r: Option<Frame>)
        ensures
            (r is Some) <==> (id < STANDARD_ID_LIMIT && payload@.len() <= MAX_PAYLOAD_LEN),
            r matches Some(f) ==> f@ == (FrameView { id: id, payload: payload@ }) && f@.wf(),
    {
        if id < STANDARD_ID_LIMIT && payload.len() <= MAX_PAYLOAD_LEN {
            Some(Frame { id, payload })
        } else {
            None
        }
    }

    pub fn id(&self) -> (r: u16)
        ensures
            r == self@.id,
    {
        self.id
    }

    pub fn data(&self) -> (r: &[u8])
        ensures
            r@ == self@.payload,
    {
        self.payload.as_slice()
    }
}

/// What a typed read of a frame yields: a value exactly when the frame's
/// identifier matches the requested type and the payload passes the codec.
pub open spec fn spec_try_decode<T: CanMessage>(f: FrameView) -> Option<T> {
    if f.id == T::ID {
        T::spec_decode(f.payload)
    } else {
        None
    }
}

/// What encoding a message yields: a frame tagged with the type's identity
/// and carrying the wire-codec bytes, when identity and width fit a frame.
pub open spec fn spec_encode_ok<T: CanMessage>(m: T) -> bool {
    T::ID < STANDARD_ID_LIMIT && m.spec_encode().len() <= MAX_PAYLOAD_LEN
}

pub open spec fn spec_encoded_frame<T: CanMessage>(m: T) -> FrameView {
    FrameView { id: T::ID, payload: m.spec_encode() }
}

/// Anything that can be read as a raw frame: an identifier to match against
/// a message type's identity, and payload bytes.
pub trait CanParseable {
    /// The frame this value presents to the adapter.
    spec fn spec_frame(&self) -> FrameView;

    fn id_matches<T: CanMessage>(&self) -> (r: bool)
        ensures
            r == (self.spec_frame().id == T::ID),
    ;

    fn as_bytes(&self) -> (r: &[u8])
        ensures
            r@ == self.spec_frame().payload,
    ;
}

impl CanParseable for Frame {
    open spec fn spec_frame(&self) -> FrameView {
        self@
    }

    fn id_matches<T: CanMessage>(&self) -> (r: bool) {
        self.id() == T::ID
    }

    fn as_bytes(&self) -> (r: &[u8]) {
        self.data()
    }
}

/// Extension trait for incoming CAN messages.
pub trait IncomingCan {
    /// The frame a typed read decodes from.
    spec fn spec_incoming(&self) -> FrameView;

    fn try_decode<T: CanMessage>(&self) -> (r: Option<T>)
        ensures
            r == spec_try_decode::<T>(self.spec_incoming()),
    ;
}

impl<C: CanParseable> IncomingCan for C {
    open spec fn spec_incoming(&self) -> FrameView {
        self.spec_frame()
    }

    fn try_decode<T: CanMessage>(&self) -> (r: Option<T>) {
        if self.id_matches::<T>() {
            T::decode(self.as_bytes())
        } else {
            None
        }
    }
}

/// Extension trait for outgoing CAN messages.
pub trait OutgoingCan<F: View>: Sized {
    /// Whether building the outgoing value can succeed for this message.
    spec fn spec_encode_accepted(&self) -> bool;

    /// The outgoing value's content on success.
    spec fn spec_encoded(&self) -> F::V;

    fn try_encode(&self) -> (r: Option<F>)
        ensures
            (r is Some) <==> self.spec_encode_accepted(),
            r matches Some(f) ==> f@ == self.spec_encoded(),
    ;
}

impl<T: CanMessage> OutgoingCan<Frame> for T {
    open spec fn spec_encode_accepted(&self) -> bool {
        spec_encode_ok::<T>(*self)
    }

    open spec fn spec_encoded(&self) -> FrameView {
        spec_encoded_frame::<T>(*self)
    }

    fn try_encode(&self) -> (r: Option<Frame>) {
        Frame::new_standard(T::ID, self.encode())
    }
}

/// Law (dispatch correctness): a typed read of a frame returns a value if
/// and only if the frame's identifier equals the requested type's identity
/// and the payload passes the wire codec; on a match it returns exactly what
/// the codec decodes.
pub proof fn lemma_dispatch_correct<T: CanMessage>(f: FrameView)
    ensures
        (spec_try_decode::<T>(f) is Some) <==> (f.id == T::ID && T::spec_decode(f.payload) is Some),
        f.id == T::ID ==> spec_try_decode::<T>(f) == T::spec_decode(f.payload),
        f.id != T::ID ==> spec_try_decode::<T>(f) is None,
{
}

/// Law: every registered message encodes — its identity and width fit a
/// frame — and the typed read decodes the encoded frame back to the message.
pub proof fn lemma_encode_then_decode<T: CanMessage>(m: T)
    ensures
        spec_encode_ok::<T>(m),
        spec_encoded_frame::<T>(m).wf(),
        spec_try_decode::<T>(spec_encoded_frame::<T>(m)) == Some(m),
{
    T::lemma_registered();
    m.lemma_encode_width();
    m.lemma_round_trip();
}

} // verus!
