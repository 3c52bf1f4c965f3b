//! Directional pipe: decodes every complete frame from the bytes one
//! connection delivered, observes each frame with its direction tag, and
//! produces the exact bytes to forward to the opposite connection.
//!
//! Frames are relayed in strict arrival order, and the forwarded bytes are
//! proved to be, verbatim, the prefix of the input that was consumed: the
//! pipe is a transparent intermediary.

use vstd::prelude::*;
use crate::codec::{decode_err, decode_ok, decoded_matches, frame_size, Packet, RelayError};

verus! {

/// Which way a pipe moves frames.
#[derive(Clone, Copy, Debug, PartialEq, Eq, Structural)]
pub enum Direction {
    ClientToUpstream,
    UpstreamToClient,
}

/// One frame as the observer sees it: the decoded frame, tagged with the
/// direction it travelled.
#[derive(Debug)]
pub struct Observation {
    pub direction: Direction,
    pub packet: Packet,
}

/// The outcome of one directional pipe run: the frames observed in arrival
/// order, the bytes forwarded to the destination, how much of the input was
/// consumed, and why the pipe stopped.
#[derive(Debug)]
pub struct PipeRun {
    pub observations: Vec<Observation>,
    pub output: Vec<u8>,
    pub consumed: usize,
    pub stop: RelayError,
}

/// Total bytes of the complete frames standing back-to-back at the head of
/// `s`.
pub open spec fn spec_consumed(s: Seq<u8>) -> int
    decreases s.len(),
{
    if decode_ok(s) {
        frame_size(s) + spec_consumed(s.skip(frame_size(s)))
    } else {
        0
    }
}

/// How many complete frames stand back-to-back at the head of `s`.
pub open spec fn spec_frame_count(s: Seq<u8>) -> nat
    decreases s.len(),
{
    if decode_ok(s) {
        1 + spec_frame_count(s.skip(frame_size(s)))
    } else {
        0
    }
}

/// The offset in `s` where frame number `i` starts (frames are numbered
/// from zero in arrival order).
pub open spec fn spec_frame_start(s: Seq<u8>, i: int) -> int
    decreases i,
{
    if i <= 0 {
        0
    } else {
        let prev = spec_frame_start(s, i - 1);
        prev + frame_size(s.skip(prev))
    }
}

/// Runs one directional pipe over `input`, the bytes the source connection
/// delivered before it closed: decodes frames in arrival order until no
/// complete frame is left, records each as an `Observation` tagged with
/// `direction`, and re-encodes each onto the output. The forwarded bytes
/// are exactly the consumed prefix of the input, so the relay forwards
/// traffic verbatim; the leftover bytes classify why the pipe stopped
/// (`ConnectionClosed` on a truncated or exhausted stream, `MalformedFrame`
/// on a zero length field).
pub fn run_pipe(input: &Vec<u8>, direction: Direction) -> (r: PipeRun)
    ensures
        r.consumed == spec_consumed(input@),
        r.output@ == input@.subrange(0, spec_consumed(input@)),
        r.stop == decode_err(input@.skip(spec_consumed(input@))),
        r.observations@.len() == spec_frame_count(input@),
        forall|i: int|
            0 <= i < r.observations@.len() ==> (#[trigger] r.observations@[i]).direction
                == direction,
        forall|i: int|
            0 <= i < r.observations@.len() ==> decoded_matches(
                input@.skip(spec_frame_start(input@, i)),
                (#[trigger] r.observations@[i]).packet,
            ),
{
    let mut observations: Vec<Observation> = Vec::new();
    let mut output: Vec<u8> = Vec::new();
    let mut pos: usize = 0;
    proof {
        assert(input@.skip(0) =~= input@);
    }
    loop
        invariant
            pos <= input@.len(),
            spec_frame_start(input@, observations@.len() as int) == pos,
            spec_consumed(input@) == pos + spec_consumed(input@.skip(pos as int)),
            spec_frame_count(input@) == observations@.len() + spec_frame_count(
                input@.skip(pos as int),
            ),
            output@ == input@.subrange(0, pos as int),
            forall|i: int|
                0 <= i < observations@.len() ==> (#[trigger] observations@[i]).direction
                    == direction,
            forall|i: int|
                0 <= i < observations@.len() ==> decoded_matches(
                    input@.skip(spec_frame_start(input@, i)),
                    (#[trigger] observations@[i]).packet,
                ),
        decreases input@.len() - pos,
    {
        let ghost rest = input@.skip(pos as int);
        match crate::codec::decode_packet(input, pos) {
            Err(stop) => {
                return PipeRun { observations, output, consumed: pos, stop };
            },
            Ok((packet, end)) => {
                proof {
                    crate::codec::lemma_decode_encode(rest, packet);
                    assert(rest.skip(frame_size(rest)) =~= input@.skip(end as int));
                    assert(input@.subrange(0, pos as int) + packet.spec_encode()
                        =~= input@.subrange(0, end as int));
                }
                let mut forwarded = packet.to_bytes();
                output.append(&mut forwarded);
                observations.push(Observation { direction, packet });
                pos = end;
            },
        }
    }
}

} // verus!
