//! Frame codec: the wire format of one protocol frame, and the encode and
//! decode operations over byte buffers.
//!
//! A frame is encoded as a 4-byte little-endian `length`, one `id` byte and
//! `length - 1` payload bytes; `length` counts the id byte and the payload
//! but not the length field itself, so a well-formed frame always has
//! `length >= 1`.

use vstd::prelude::*;
use vstd::bytes::{spec_u32_from_le_bytes, spec_u32_to_le_bytes};
use vstd::bytes::{u32_from_le_bytes, u32_to_le_bytes};
use vstd::slice::slice_subrange;
use vstd::std_specs::cmp::PartialEqSpec;

verus! {

/// Why a codec, pipe or session operation stopped.
#[derive(Clone, Copy, Debug, PartialEq, Eq, Structural)]
pub enum RelayError {
    /// Transport-level read or write failure.
    IoError,
    /// End of stream where more bytes of a frame were expected.
    ConnectionClosed,
    /// A `length` field that cannot yield a valid frame (`length == 0`).
    MalformedFrame,
    /// Dialing the fixed upstream target failed.
    UpstreamUnreachable,
}

/// One protocol frame: `packet_length` counts the id byte plus the payload.
#[derive(Debug)]
pub struct Packet {
    pub packet_length: u32,
    pub packet_id: u8,
    pub packet_data_bytes: Vec<u8>,
}

impl Packet {
    /// A well-formed frame: the length field counts the id byte and the payload.
    pub open spec fn well_formed(self) -> bool {
        self.packet_length == 1 + self.packet_data_bytes@.len()
    }

    /// The exact byte sequence that `to_bytes` produces.
    pub open spec fn spec_encode(self) -> Seq<u8> {
        spec_u32_to_le_bytes(self.packet_length) + seq![self.packet_id]
            + self.packet_data_bytes@
    }

    /// Encodes the frame: little-endian length, id byte, then the payload,
    /// verbatim. Total and pure; the output holds exactly
    /// `4 + len(payload) + 1` bytes.
    pub fn to_bytes(&self) -> (bytes: Vec<u8>)
        ensures
            bytes@ == self.spec_encode(),
            bytes@.len() == 4 + self.packet_data_bytes@.len() + 1,
    {
        let mut bytes: Vec<u8> = u32_to_le_bytes(self.packet_length);
        bytes.push(self.packet_id);
        let mut i: usize = 0;
        while i < self.packet_data_bytes.len()
            invariant
                i <= self.packet_data_bytes@.len(),
                bytes@ == spec_u32_to_le_bytes(self.packet_length).push(self.packet_id)
                    + self.packet_data_bytes@.subrange(0, i as int),
            decreases self.packet_data_bytes@.len() - i,
        {
            bytes.push(self.packet_data_bytes[i]);
            proof {
                assert(bytes@ =~= spec_u32_to_le_bytes(self.packet_length).push(self.packet_id)
                    + self.packet_data_bytes@.subrange(0, i + 1));
            }
            i = i + 1;
        }
        proof {
            assert(self.packet_data_bytes@.subrange(0, i as int) =~= self.packet_data_bytes@);
            assert(bytes@ =~= self.spec_encode());
        }
        bytes
    }
}

/// The value of the little-endian length field at the head of `s`.
pub open spec fn spec_frame_length(s: Seq<u8>) -> u32
    recommends
        s.len() >= 4,
{
    spec_u32_from_le_bytes(s.subrange(0, 4))
}

/// Total encoded size of the frame at the head of `s`: the 4 length bytes
/// plus the `length` bytes they announce.
pub open spec fn frame_size(s: Seq<u8>) -> int
    recommends
        s.len() >= 4,
{
    4 + spec_frame_length(s) as int
}

/// Whether one complete, well-formed frame stands at the head of `s`.
pub open spec fn decode_ok(s: Seq<u8>) -> bool {
    &&& s.len() >= 4
    &&& spec_frame_length(s) >= 1
    &&& s.len() >= frame_size(s)
}

/// The error that decoding the head of `s` yields when no complete frame
/// stands there: a missing or truncated frame is a closed connection, a
/// zero length field is a protocol violation.
pub open spec fn decode_err(s: Seq<u8>) -> RelayError
    recommends
        !decode_ok(s),
{
    if s.len() < 4 {
        RelayError::ConnectionClosed
    } else if spec_frame_length(s) == 0 {
        RelayError::MalformedFrame
    } else {
        RelayError::ConnectionClosed
    }
}

/// Whether `p` is exactly the frame encoded at the head of `s`.
pub open spec fn decoded_matches(s: Seq<u8>, p: Packet) -> bool {
    &&& decode_ok(s)
    &&& p.packet_length == spec_frame_length(s)
    &&& p.packet_id == s[4]
    &&& p.packet_data_bytes@ == s.subrange(5, frame_size(s))
}

/// Reads the 4-byte little-endian length field of a frame header.
pub fn header_length(b0: u8, b1: u8, b2: u8, b3: u8) -> (length: u32)
    ensures
        length == spec_u32_from_le_bytes(seq![b0, b1, b2, b3]),
{
    let mut header: Vec<u8> = Vec::new();
    header.push(b0);
    header.push(b1);
    header.push(b2);
    header.push(b3);
    proof {
        assert(header@ =~= seq![b0, b1, b2, b3]);
    }
    u32_from_le_bytes(header.as_slice())
}

/// How many payload bytes follow the id byte of a frame whose length field
/// is `length`. A zero length cannot yield a frame: it is rejected as
/// `MalformedFrame` instead of wrapping below zero.
pub fn body_len(length: u32) -> (r: Result<usize, RelayError>)
    ensures
        length == 0 ==> r == Err::<usize, RelayError>(RelayError::MalformedFrame),
        length >= 1 ==> r == Ok::<usize, RelayError>((length - 1) as usize),
{
    if length == 0 {
        Err(RelayError::MalformedFrame)
    } else {
        Ok((length - 1) as usize)
    }
}

/// Decodes the frame at offset `pos` of `buf`: 4 bytes of little-endian
/// `length`, one `id` byte, then `length - 1` payload bytes. Returns the
/// frame and the offset just past it. Fails with `ConnectionClosed` when the
/// buffer ends before a complete frame, and with `MalformedFrame` when the
/// length field is zero; no partial frame is ever produced.
pub fn decode_packet(buf: &Vec<u8>, pos: usize) -> (r: Result<(Packet, usize), RelayError>)
    requires
        pos <= buf@.len(),
    ensures
        decode_ok(buf@.skip(pos as int)) ==> (r matches Ok((p, end))
            && decoded_matches(buf@.skip(pos as int), p)
            && p.well_formed()
            && end == pos + frame_size(buf@.skip(pos as int))),
        !decode_ok(buf@.skip(pos as int)) ==> r == Err::<(Packet, usize), RelayError>(
            decode_err(buf@.skip(pos as int)),
        ),
{
    let ghost rest = buf@.skip(pos as int);
    let remaining = buf.len() - pos;
    if remaining < 4 {
        return Err(RelayError::ConnectionClosed);
    }
    let header = slice_subrange(buf.as_slice(), pos, pos + 4);
    proof {
        assert(header@ =~= rest.subrange(0, 4));
    }
    let length = u32_from_le_bytes(header);
    if length == 0 {
        return Err(RelayError::MalformedFrame);
    }
    if remaining - 4 < length as usize {
        return Err(RelayError::ConnectionClosed);
    }
    let id = buf[pos + 4];
    let payload_len = (length - 1) as usize;
    let mut payload: Vec<u8> = Vec::new();
    let mut i: usize = 0;
    while i < payload_len
        invariant
            i <= payload_len,
            1 <= length,
            payload_len == length - 1,
            pos + 4 + length <= buf@.len(),
            buf@.len() <= usize::MAX,
            payload@ == buf@.subrange(pos + 5, pos + 5 + i),
        decreases payload_len - i,
    {
        payload.push(buf[pos + 5 + i]);
        proof {
            assert(payload@ =~= buf@.subrange(pos + 5, pos + 5 + (i + 1)));
        }
        i = i + 1;
    }
    let end = pos + 4 + length as usize;
    proof {
        assert(rest[4] == buf@[pos + 4]);
        assert(payload@ =~= rest.subrange(5, frame_size(rest)));
    }
    Ok((
        Packet { packet_length: length, packet_id: id, packet_data_bytes: payload },
        end,
    ))
}

/// Round-trip law, one direction: the encoding of a well-formed frame
/// decodes, in full, back to that frame — `decode(encode(p))` succeeds,
/// consumes exactly the encoding, and any frame it yields equals `p`.
pub proof fn lemma_encode_decode(p: Packet)
    requires
        p.well_formed(),
    ensures
        decode_ok(p.spec_encode()),
        frame_size(p.spec_encode()) == p.spec_encode().len(),
        forall|q: Packet| decoded_matches(p.spec_encode(), q) ==> q.eq_spec(&p),
{
    vstd::bytes::lemma_auto_spec_u32_to_from_le_bytes();
    let enc = p.spec_encode();
    assert(enc.subrange(0, 4) =~= spec_u32_to_le_bytes(p.packet_length));
    assert(spec_frame_length(enc) == p.packet_length);
    assert(enc[4] == p.packet_id);
    assert forall|q: Packet| decoded_matches(enc, q) implies q.eq_spec(&p) by {
        assert(enc.subrange(5, frame_size(enc)) =~= p.packet_data_bytes@);
    }
}

/// Round-trip law, other direction: re-encoding the frame decoded from the
/// head of `s` reproduces exactly the bytes it was decoded from. This is
/// what makes the relay transparent: forwarding the re-encoding forwards
/// the original bytes verbatim.
pub proof fn lemma_decode_encode(s: Seq<u8>, p: Packet)
    requires
        decoded_matches(s, p),
    ensures
        p.spec_encode() == s.subrange(0, frame_size(s)),
        p.well_formed(),
{
    vstd::bytes::lemma_auto_spec_u32_to_from_le_bytes();
    assert(s.subrange(0, 4) =~= s.subrange(0, frame_size(s)).subrange(0, 4));
    assert(spec_u32_to_le_bytes(p.packet_length) == s.subrange(0, 4));
    assert(p.spec_encode() =~= s.subrange(0, frame_size(s)));
}

impl PartialEq for Packet {
    /// Two frames are equal when the length field, the id and every payload
    /// byte agree.
    fn eq(&self, other: &Packet) -> (r: bool) {
        let fields_eq = self.packet_length == other.packet_length
            && self.packet_id == other.packet_id;
        let data_eq = self.packet_data_bytes == other.packet_data_bytes;
        proof {
            if self.packet_data_bytes@ == other.packet_data_bytes@ {
                assert(self.packet_data_bytes.eq_spec(&other.packet_data_bytes));
            }
            if self.packet_data_bytes.eq_spec(&other.packet_data_bytes) {
                assert(self.packet_data_bytes@ =~= other.packet_data_bytes@);
            }
        }
        fields_eq && data_eq
    }
}

impl vstd::std_specs::cmp::PartialEqSpecImpl for Packet {
    open spec fn obeys_eq_spec() -> bool {
        true
    }

    open spec fn eq_spec(&self, other: &Packet) -> bool {
        &&& self.packet_length == other.packet_length
        &&& self.packet_id == other.packet_id
        &&& self.packet_data_bytes@ == other.packet_data_bytes@
    }
}

} // verus!
