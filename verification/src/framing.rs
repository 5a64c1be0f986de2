//! Wire framing: one frame per delimiter-terminated unit.
//!
//! Frames carry no length prefix; a sender appends a single delimiter byte to
//! each frame and a reader strips it. A frame that itself contains the
//! delimiter corrupts the stream, so the round-trip law below is stated only
//! for delimiter-free payloads.

use vstd::prelude::*;

verus! {

/// The byte that terminates every frame on the wire.
pub const DELIMITER: u8 = 10;

/// True when `s` holds the delimiter byte somewhere.
pub open spec fn has_delimiter(s: Seq<u8>) -> bool {
    exists|i: int| 0 <= i < s.len() && s[i] == DELIMITER
}

/// Appends the wire delimiter to a payload, yielding the unit that is written
/// to the transport.
pub fn encode_frame(payload: &Vec<u8>) -> (r: Vec<u8>)
    ensures
        r@ == payload@.push(DELIMITER),
{
    let mut out: Vec<u8> = Vec::new();
    let mut i: usize = 0;
    while i < payload.len()
        invariant
            i <= payload.len(),
            out@ == payload@.subrange(0, i as int),
        decreases payload.len() - i,
    {
        out.push(payload[i]);
        i = i + 1;
    }
    assert(out@ == payload@);
    out.push(DELIMITER);
    out
}

/// Removes the first delimiter-terminated frame from the front of `buf` and
/// returns it with the delimiter stripped. When `buf` holds no delimiter no
/// complete frame has arrived yet, and `buf` is left as it is.
pub fn take_frame(buf: &mut Vec<u8>) -> (r: Option<Vec<u8>>)
    ensures
        match r {
            Some(frame) => exists|i: int|
                0 <= i < old(buf)@.len() && old(buf)@[i] == DELIMITER && (forall|j: int|
                    0 <= j < i ==> old(buf)@[j] != DELIMITER) && frame@ == old(buf)@.subrange(
                    0,
                    i,
                ) && final(buf)@ == old(buf)@.subrange(i + 1, old(buf)@.len() as int),
            None => !has_delimiter(old(buf)@) && final(buf)@ == old(buf)@,
        },
{
    let mut pos: usize = 0;
    while pos < buf.len()
        invariant
            pos <= buf@.len(),
            buf@ == old(buf)@,
            forall|j: int| 0 <= j < pos ==> buf@[j] != DELIMITER,
        decreases buf.len() - pos,
    {
        if buf[pos] == DELIMITER {
            let mut frame: Vec<u8> = Vec::new();
            let mut i: usize = 0;
            while i < pos
                invariant
                    i <= pos,
                    pos < buf@.len(),
                    buf@ == old(buf)@,
                    frame@ == buf@.subrange(0, i as int),
                decreases pos - i,
            {
                frame.push(buf[i]);
                i = i + 1;
            }
            let mut rest: Vec<u8> = Vec::new();
            let mut k: usize = pos + 1;
            while k < buf.len()
                invariant
                    pos + 1 <= k <= buf@.len(),
                    buf@ == old(buf)@,
                    rest@ == buf@.subrange(pos + 1, k as int),
                decreases buf.len() - k,
            {
                rest.push(buf[k]);
                k = k + 1;
            }
            *buf = rest;
            return Some(frame);
        }
        pos = pos + 1;
    }
    None
}

/// The framing round trip: a delimiter-free payload that is encoded and placed
/// in front of any remaining bytes is recovered exactly, and the remainder is
/// left untouched.
pub proof fn lemma_frame_round_trip(payload: Seq<u8>, rest: Seq<u8>)
    requires
        !has_delimiter(payload),
    ensures
        ({
            let wire = payload.push(DELIMITER) + rest;
            &&& wire.len() > payload.len()
            &&& wire[payload.len() as int] == DELIMITER
            &&& (forall|j: int| 0 <= j < payload.len() ==> wire[j] != DELIMITER)
            &&& wire.subrange(0, payload.len() as int) == payload
            &&& wire.subrange(payload.len() as int + 1, wire.len() as int) == rest
        }),
{
    let wire = payload.push(DELIMITER) + rest;
    assert(wire.subrange(0, payload.len() as int) =~= payload);
    assert(wire.subrange(payload.len() as int + 1, wire.len() as int) =~= rest);
}

} // verus!
