//! The binary frame layer of the output protocol: every message on the wire
//! is one tag byte, a little-endian `u32` payload length, then the payload.

use vstd::prelude::*;

verus! {

/// Frame tag for control payloads (UTF-8 JSON text).
pub const MSG_TYPE_JSON: u8 = 1;

/// Frame tag for audio payloads (little-endian signed 16-bit PCM).
pub const MSG_TYPE_AUDIO: u8 = 2;

/// The four bytes of `n`, least significant first.
pub open spec fn u32_le(n: u32) -> Seq<u8> {
    seq![
        (n % 256) as u8,
        ((n / 256) % 256) as u8,
        ((n / 65536) % 256) as u8,
        ((n / 16777216) % 256) as u8,
    ]
}

/// One whole frame: tag byte, payload length in little-endian order, payload.
pub open spec fn spec_frame(msg_type: u8, payload: Seq<u8>) -> Seq<u8> {
    seq![msg_type] + u32_le(payload.len() as u32) + payload
}

/// Encode one frame of the output protocol: the tag byte, the exact payload
/// byte count as a little-endian `u32`, then the payload itself.
pub fn write_framed_message(msg_type: u8, data: &Vec<u8>) -> (frame: Vec<u8>)
    requires
        data@.len() <= u32::MAX,
    ensures
        frame@ == spec_frame(msg_type, data@),
        frame@.len() == 5 + data@.len(),
{
    let len = data.len() as u32;
    let mut frame: Vec<u8> = Vec::new();
    frame.push(msg_type);
    frame.push((len % 256) as u8);
    frame.push(((len / 256) % 256) as u8);
    frame.push(((len / 65536) % 256) as u8);
    frame.push(((len / 16777216) % 256) as u8);
    let mut i: usize = 0;
    while i < data.len()
        invariant
            i <= data@.len(),
            data@.len() <= u32::MAX,
            frame@.len() == 5 + i,
            frame@ == (seq![msg_type] + u32_le(data@.len() as u32)) + data@.subrange(0, i as int),
        decreases data@.len() - i,
    {
        frame.push(data[i]);
        i = i + 1;
        proof {
            assert(data@.subrange(0, i as int) =~= data@.subrange(0, i - 1) + seq![data@[i - 1]]);
        }
    }
    proof {
        assert(data@.subrange(0, data@.len() as int) =~= data@);
        assert(frame@ =~= spec_frame(msg_type, data@));
    }
    frame
}

} // verus!
