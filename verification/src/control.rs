//! Control payload encoding: the device-list reply is one JSON object,
//! `{"type":"device-list","devices":[...]}`, whose `devices` member holds the
//! device names in enumeration order, each as a JSON string with the usual
//! escapes for quotes, backslashes and control characters.

use vstd::prelude::*;
use vstd::utf8::encode_utf8;

use crate::frame::MSG_TYPE_JSON;
use crate::frame::spec_frame;
use crate::frame::write_framed_message;

verus! {

/// The lowercase hexadecimal digit for `n`.
pub open spec fn spec_hex_digit(n: u8) -> u8 {
    if n < 10 {
        (0x30 + n) as u8
    } else {
        (0x61 + (n - 10)) as u8
    }
}

/// How one byte of a name appears inside a JSON string: quotes and
/// backslashes get a two-byte escape, control bytes below 0x20 get their
/// short escape or a `\u00XX` escape, and every other byte stands as itself.
pub open spec fn escape_byte(b: u8) -> Seq<u8> {
    if b == 0x22 {
        seq![0x5c, 0x22]
    } else if b == 0x5c {
        seq![0x5c, 0x5c]
    } else if b == 0x08 {
        seq![0x5c, 0x62]
    } else if b == 0x09 {
        seq![0x5c, 0x74]
    } else if b == 0x0a {
        seq![0x5c, 0x6e]
    } else if b == 0x0c {
        seq![0x5c, 0x66]
    } else if b == 0x0d {
        seq![0x5c, 0x72]
    } else if b < 0x20 {
        seq![0x5c, 0x75, 0x30, 0x30, spec_hex_digit(b / 16), spec_hex_digit(b % 16)]
    } else {
        seq![b]
    }
}

/// A whole name escaped byte by byte.
pub open spec fn escape_bytes(s: Seq<u8>) -> Seq<u8>
    decreases s.len(),
{
    if s.len() == 0 {
        seq![]
    } else {
        escape_bytes(s.drop_last()) + escape_byte(s.last())
    }
}

/// A JSON string literal: a quote, the escaped bytes, a quote.
pub open spec fn json_string(s: Seq<u8>) -> Seq<u8> {
    seq![0x22] + escape_bytes(s) + seq![0x22]
}

/// The members of the `devices` array, comma separated, in order.
pub open spec fn devices_items(names: Seq<Seq<u8>>) -> Seq<u8>
    decreases names.len(),
{
    if names.len() == 0 {
        seq![]
    } else if names.len() == 1 {
        json_string(names.last())
    } else {
        devices_items(names.drop_last()) + seq![0x2c] + json_string(names.last())
    }
}

/// The fixed opening of the reply, `{"type":"device-list","devices":[`.
pub open spec fn device_list_prefix() -> Seq<u8> {
    seq![
        0x7b, 0x22, 0x74, 0x79, 0x70, 0x65, 0x22, 0x3a, 0x22, 0x64, 0x65, 0x76, 0x69, 0x63, 0x65,
        0x2d, 0x6c, 0x69, 0x73, 0x74, 0x22, 0x2c, 0x22, 0x64, 0x65, 0x76, 0x69, 0x63, 0x65, 0x73,
        0x22, 0x3a, 0x5b,
    ]
}

/// The whole device-list payload for the given (UTF-8 encoded) names.
pub open spec fn spec_device_list_payload(names: Seq<Seq<u8>>) -> Seq<u8> {
    device_list_prefix() + devices_items(names) + seq![0x5d, 0x7d]
}

/// The UTF-8 encodings of a sequence of names.
pub open spec fn names_bytes(names: Seq<Seq<char>>) -> Seq<Seq<u8>> {
    names.map_values(|s: Seq<char>| encode_utf8(s))
}

/// The lowercase hexadecimal digit for `n`.
fn hex_digit(n: u8) -> (d: u8)
    requires
        n < 16,
    ensures
        d == spec_hex_digit(n),
{
    if n < 10 {
        0x30 + n
    } else {
        0x61 + (n - 10)
    }
}

/// Append the JSON escape of every byte of `s` to `out`.
fn push_escaped(out: &mut Vec<u8>, s: &[u8])
    ensures
        final(out)@ == old(out)@ + escape_bytes(s@),
{
    let ghost base = out@;
    let mut i: usize = 0;
    while i < s.len()
        invariant
            i <= s@.len(),
            out@ == base + escape_bytes(s@.subrange(0, i as int)),
        decreases s@.len() - i,
    {
        let b = s[i];
        if b == 0x22 {
            out.push(0x5c);
            out.push(0x22);
        } else if b == 0x5c {
            out.push(0x5c);
            out.push(0x5c);
        } else if b == 0x08 {
            out.push(0x5c);
            out.push(0x62);
        } else if b == 0x09 {
            out.push(0x5c);
            out.push(0x74);
        } else if b == 0x0a {
            out.push(0x5c);
            out.push(0x6e);
        } else if b == 0x0c {
            out.push(0x5c);
            out.push(0x66);
        } else if b == 0x0d {
            out.push(0x5c);
            out.push(0x72);
        } else if b < 0x20 {
            out.push(0x5c);
            out.push(0x75);
            out.push(0x30);
            out.push(0x30);
            out.push(hex_digit(b / 16));
            out.push(hex_digit(b % 16));
        } else {
            out.push(b);
        }
        i = i + 1;
        proof {
            let sub = s@.subrange(0, i as int);
            assert(sub.drop_last() =~= s@.subrange(0, i - 1));
            assert(out@ =~= base + escape_bytes(sub));
        }
    }
    proof {
        assert(s@.subrange(0, s@.len() as int) =~= s@);
    }
}

/// Build the device-list payload for the given names, in their order.
pub fn device_list_payload(names: &Vec<String>) -> (payload: Vec<u8>)
    ensures
        payload@ == spec_device_list_payload(names_bytes(names.deep_view())),
{
    let mut payload: Vec<u8> = Vec::new();
    payload.push(0x7b);
    payload.push(0x22);
    payload.push(0x74);
    payload.push(0x79);
    payload.push(0x70);
    payload.push(0x65);
    payload.push(0x22);
    payload.push(0x3a);
    payload.push(0x22);
    payload.push(0x64);
    payload.push(0x65);
    payload.push(0x76);
    payload.push(0x69);
    payload.push(0x63);
    payload.push(0x65);
    payload.push(0x2d);
    payload.push(0x6c);
    payload.push(0x69);
    payload.push(0x73);
    payload.push(0x74);
    payload.push(0x22);
    payload.push(0x2c);
    payload.push(0x22);
    payload.push(0x64);
    payload.push(0x65);
    payload.push(0x76);
    payload.push(0x69);
    payload.push(0x63);
    payload.push(0x65);
    payload.push(0x73);
    payload.push(0x22);
    payload.push(0x3a);
    payload.push(0x5b);
    proof {
        assert(payload@ =~= device_list_prefix());
    }
    let mut i: usize = 0;
    while i < names.len()
        invariant
            i <= names@.len(),
            payload@ == device_list_prefix() + devices_items(names_bytes(
                names.deep_view(),
            ).subrange(0, i as int)),
        decreases names@.len() - i,
    {
        if i > 0 {
            payload.push(0x2c);
        }
        payload.push(0x22);
        push_escaped(&mut payload, names[i].as_str().as_bytes());
        payload.push(0x22);
        i = i + 1;
        proof {
            let nb = names_bytes(names.deep_view());
            let sub = nb.subrange(0, i as int);
            assert(sub.drop_last() =~= nb.subrange(0, i - 1));
            assert(sub.last() == encode_utf8(names.deep_view()[i - 1]));
            assert(payload@ =~= device_list_prefix() + devices_items(sub));
        }
    }
    payload.push(0x5d);
    payload.push(0x7d);
    proof {
        let nb = names_bytes(names.deep_view());
        assert(nb.subrange(0, names@.len() as int) =~= nb);
        assert(payload@ =~= spec_device_list_payload(nb));
    }
    payload
}

/// Build the whole device-list control frame. Returns `None` exactly when
/// the payload would not fit the frame's 32-bit length field.
pub fn device_list_frame(names: &Vec<String>) -> (r: Option<Vec<u8>>)
    ensures
        ({
            let payload = spec_device_list_payload(names_bytes(names.deep_view()));
            &&& r is Some <==> payload.len() <= u32::MAX
            &&& r matches Some(frame) ==> frame@ == spec_frame(MSG_TYPE_JSON, payload)
        }),
{
    let payload = device_list_payload(names);
    if payload.len() <= u32::MAX as usize {
        Some(write_framed_message(MSG_TYPE_JSON, &payload))
    } else {
        None
    }
}

} // verus!
