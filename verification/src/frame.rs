//! The frame codec: commands to wire bytes, replies to payload and status.

use crate::apdu::{answer_payload, answer_retcode, parse_answer, serialize_command};
use crate::error::{EncodingError, ProtocolError};
use crate::layout::{copy_bytes, copy_range};
use crate::status::StatusCode;
use vstd::prelude::*;

verus! {

/// Largest number of data bytes a command frame can carry.
pub const MAX_PAYLOAD_LEN: usize = 255;

/// Number of bytes a command frame has before its data.
pub const HEADER_LEN: usize = 5;

/// Number of bytes the status word takes at the end of a reply.
pub const STATUS_LEN: usize = 2;

/// What a command frame holds, as plain values.
pub struct FrameView {
    pub cla: u8,
    pub ins: u8,
    pub p1: u8,
    pub p2: u8,
    pub data: Seq<u8>,
}

/// A command ready to be sent. It can only be made by [`encode`] and
/// [`CommandFrame::from_wire`], so its data always fits the length byte.
#[derive(Debug, PartialEq, Eq)]
pub struct CommandFrame {
    cla: u8,
    ins: u8,
    p1: u8,
    p2: u8,
    data: Vec<u8>,
}

impl View for CommandFrame {
    type V = FrameView;

    closed spec fn view(&self) -> FrameView {
        FrameView { cla: self.cla, ins: self.ins, p1: self.p1, p2: self.p2, data: self.data@ }
    }
}

impl Clone for CommandFrame {
    fn clone(&self) -> (copy: CommandFrame)
        ensures
            copy@ == self@,
    {
        proof {
            use_type_invariant(self);
        }
        CommandFrame {
            cla: self.cla,
            ins: self.ins,
            p1: self.p1,
            p2: self.p2,
            data: copy_bytes(self.data.as_slice()),
        }
    }
}

/// The frame that [`encode`] builds from a class, an instruction and a
/// payload: both parameter bytes are zero.
pub open spec fn spec_encode(cla: u8, ins: u8, payload: Seq<u8>) -> Result<
    FrameView,
    EncodingError,
> {
    if payload.len() <= MAX_PAYLOAD_LEN {
        Ok(FrameView { cla, ins, p1: 0, p2: 0, data: payload })
    } else {
        Err(EncodingError::PayloadTooLarge { len: payload.len() as usize })
    }
}

/// The bytes a frame is sent as: class, instruction, the two parameter
/// bytes, the data length, then the data.
pub open spec fn frame_wire(frame: FrameView) -> Seq<u8> {
    seq![frame.cla, frame.ins, frame.p1, frame.p2, frame.data.len() as u8] + frame.data
}

/// The frame that a byte sequence is the wire form of, if it is one: five
/// header bytes, the last of which counts exactly the bytes that follow.
pub open spec fn spec_from_wire(wire: Seq<u8>) -> Option<FrameView> {
    if wire.len() >= HEADER_LEN && wire[4] as int == wire.len() - HEADER_LEN {
        Some(
            FrameView {
                cla: wire[0],
                ins: wire[1],
                p1: wire[2],
                p2: wire[3],
                data: wire.subrange(HEADER_LEN as int, wire.len() as int),
            },
        )
    } else {
        None
    }
}

/// Payload and status of a reply: the last two bytes are the status word,
/// high byte first, and everything before them is the payload. A reply
/// shorter than a status word has neither.
pub open spec fn spec_decode(raw: Seq<u8>) -> Result<(Seq<u8>, StatusCode), ProtocolError> {
    if raw.len() < STATUS_LEN {
        Err(ProtocolError::TruncatedResponse)
    } else {
        Ok(
            (
                raw.subrange(0, raw.len() - STATUS_LEN),
                StatusCode::spec_from_bytes(raw[raw.len() - 2], raw[raw.len() - 1]),
            ),
        )
    }
}

/// The bytes of a reply that carries the given payload and status.
pub open spec fn response_wire(payload: Seq<u8>, status: StatusCode) -> Seq<u8> {
    payload + status.spec_to_bytes()
}

/// Builds the command frame for a class, an instruction and a payload, with
/// both parameter bytes zero. A payload of more than 255 bytes is refused.
pub fn encode(command_class: u8, instruction: u8, payload: &[u8]) -> (frame: Result<
    CommandFrame,
    EncodingError,
>)
    ensures
        payload@.len() <= MAX_PAYLOAD_LEN <==> frame is Ok,
        match frame {
            Ok(f) => spec_encode(command_class, instruction, payload@) == Ok::<
                FrameView,
                EncodingError,
            >(f@),
            Err(e) => spec_encode(command_class, instruction, payload@) == Err::<
                FrameView,
                EncodingError,
            >(e),
        },
{
    if payload.len() > MAX_PAYLOAD_LEN {
        return Err(EncodingError::PayloadTooLarge { len: payload.len() });
    }
    let data = copy_bytes(payload);
    Ok(CommandFrame { cla: command_class, ins: instruction, p1: 0, p2: 0, data })
}

/// Splits a raw reply into its payload and its status word. A reply of
/// fewer than two bytes is refused as truncated.
pub fn decode(raw: &[u8]) -> (parts: Result<(Vec<u8>, StatusCode), ProtocolError>)
    ensures
        raw@.len() >= STATUS_LEN <==> parts is Ok,
        match parts {
            Ok((payload, status)) => spec_decode(raw@) == Ok::<
                (Seq<u8>, StatusCode),
                ProtocolError,
            >((payload@, status)),
            Err(e) => spec_decode(raw@) == Err::<(Seq<u8>, StatusCode), ProtocolError>(e),
        },
{
    match parse_answer(copy_bytes(raw)) {
        None => Err(ProtocolError::TruncatedResponse),
        Some(answer) => {
            let payload = answer_payload(&answer);
            let status = StatusCode(answer_retcode(&answer));
            Ok((payload, status))
        },
    }
}

impl CommandFrame {
    #[verifier::type_invariant]
    spec fn fits_length_byte(self) -> bool {
        self.data@.len() <= MAX_PAYLOAD_LEN
    }

    /// The instruction class.
    pub fn cla(&self) -> (cla: u8)
        ensures
            cla == self@.cla,
    {
        self.cla
    }

    /// The instruction code.
    pub fn ins(&self) -> (ins: u8)
        ensures
            ins == self@.ins,
    {
        self.ins
    }

    /// The first parameter byte.
    pub fn p1(&self) -> (p1: u8)
        ensures
            p1 == self@.p1,
    {
        self.p1
    }

    /// The second parameter byte.
    pub fn p2(&self) -> (p2: u8)
        ensures
            p2 == self@.p2,
    {
        self.p2
    }

    /// The data bytes.
    pub fn data(&self) -> (data: &[u8])
        ensures
            data@ == self@.data,
            data@.len() <= MAX_PAYLOAD_LEN,
    {
        proof {
            use_type_invariant(self);
        }
        self.data.as_slice()
    }

    /// The bytes this frame is sent as.
    pub fn serialize(&self) -> (wire: Vec<u8>)
        ensures
            wire@ == frame_wire(self@),
            self@.data.len() <= MAX_PAYLOAD_LEN,
            spec_from_wire(wire@) == Some(self@),
    {
        proof {
            use_type_invariant(self);
            lemma_frame_round_trip(self@);
        }
        serialize_command(self.cla, self.ins, self.p1, self.p2, self.data.as_slice())
    }

    /// Reads a command frame back from its wire bytes. Succeeds exactly on
    /// byte sequences whose fifth byte counts the bytes after it.
    pub fn from_wire(wire: &[u8]) -> (frame: Option<CommandFrame>)
        ensures
            match frame {
                Some(f) => Some(f@) == spec_from_wire(wire@),
                None => spec_from_wire(wire@) is None,
            },
    {
        if wire.len() < HEADER_LEN || wire[4] as usize != wire.len() - HEADER_LEN {
            return None;
        }
        let data = copy_range(wire, HEADER_LEN, wire.len());
        Some(CommandFrame { cla: wire[0], ins: wire[1], p1: wire[2], p2: wire[3], data })
    }
}

/// Reading the wire bytes of a frame gives the frame back, whenever its data
/// fits the length byte.
pub proof fn lemma_frame_round_trip(frame: FrameView)
    requires
        frame.data.len() <= MAX_PAYLOAD_LEN,
    ensures
        spec_from_wire(frame_wire(frame)) == Some(frame),
{
    let wire = frame_wire(frame);
    assert(wire.subrange(HEADER_LEN as int, wire.len() as int) =~= frame.data);
}

/// Encoding a class, an instruction and a payload of at most 255 bytes and
/// reading the wire bytes back recovers the three exactly.
pub proof fn lemma_encode_round_trip(cla: u8, ins: u8, payload: Seq<u8>)
    requires
        payload.len() <= MAX_PAYLOAD_LEN,
    ensures
        spec_encode(cla, ins, payload) is Ok,
        spec_from_wire(frame_wire(spec_encode(cla, ins, payload).unwrap())) is Some,
        spec_from_wire(frame_wire(spec_encode(cla, ins, payload).unwrap())).unwrap().cla == cla,
        spec_from_wire(frame_wire(spec_encode(cla, ins, payload).unwrap())).unwrap().ins == ins,
        spec_from_wire(frame_wire(spec_encode(cla, ins, payload).unwrap())).unwrap().data
            == payload,
{
    lemma_frame_round_trip(spec_encode(cla, ins, payload).unwrap());
}

/// Decoding a reply built from a payload and a status gives both back.
pub proof fn lemma_response_round_trip(payload: Seq<u8>, status: StatusCode)
    ensures
        spec_decode(response_wire(payload, status)) == Ok::<_, ProtocolError>((payload, status)),
{
    let raw = response_wire(payload, status);
    assert(raw.subrange(0, raw.len() - STATUS_LEN) =~= payload);
}

/// The payload length decides whether encoding succeeds: up to 255 bytes it
/// does, beyond that it reports the payload as too large.
pub proof fn lemma_encode_limit(cla: u8, ins: u8, payload: Seq<u8>)
    ensures
        payload.len() <= 255 ==> spec_encode(cla, ins, payload) is Ok,
        payload.len() > 255 ==> spec_encode(cla, ins, payload) is Err,
        payload.len() == 256 ==> spec_encode(cla, ins, payload) == Err::<FrameView, _>(
            (EncodingError::PayloadTooLarge { len: 256 }),
        ),
{
}

/// A reply of exactly two bytes has an empty payload and the status those
/// two bytes spell; a shorter one is truncated.
pub proof fn lemma_decode_short_replies(raw: Seq<u8>)
    ensures
        raw.len() < 2 ==> spec_decode(raw) == Err::<(Seq<u8>, StatusCode), _>(
            ProtocolError::TruncatedResponse,
        ),
        raw.len() == 2 ==> spec_decode(raw) == Ok::<_, ProtocolError>(
            (Seq::<u8>::empty(), StatusCode::spec_from_bytes(raw[0], raw[1])),
        ),
{
    if raw.len() == 2 {
        assert(raw.subrange(0, 0) =~= Seq::<u8>::empty());
    }
}

} // verus!
