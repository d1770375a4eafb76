//! Wire form of one text field: a four-byte little-endian byte length,
//! followed by that many bytes of UTF-8. The encoding is specified over
//! vstd's UTF-8 model and proved invertible whatever bytes follow it.

use vstd::bytes::{
    lemma_auto_spec_u32_to_from_le_bytes, spec_u32_from_le_bytes, spec_u32_to_le_bytes,
    u32_from_le_bytes, u32_to_le_bytes,
};
use vstd::prelude::*;
use vstd::slice::{slice_subrange, slice_to_vec};
use vstd::string::StrSliceExecFns;
use vstd::utf8::{decode_utf8, encode_utf8, valid_utf8};

verus! {

/// Whether a text field fits the wire format: the length of its UTF-8
/// encoding must fit the four-byte length header.
pub open spec fn wf_text(s: Seq<char>) -> bool {
    encode_utf8(s).len() <= u32::MAX
}

/// Wire form of one text field.
pub open spec fn spec_encode_text(s: Seq<char>) -> Seq<u8>
    recommends
        wf_text(s),
{
    spec_u32_to_le_bytes(encode_utf8(s).len() as u32) + encode_utf8(s)
}

/// Reads one text field from the front of `b`; yields the text and the
/// number of bytes its wire form occupied, or nothing when no text field
/// starts there.
pub open spec fn spec_decode_text(b: Seq<u8>) -> Option<(Seq<char>, int)> {
    if b.len() < 4 {
        None
    } else {
        let n = spec_u32_from_le_bytes(b.subrange(0, 4)) as int;
        if b.len() < 4 + n {
            None
        } else {
            let chunk = b.subrange(4, 4 + n);
            if valid_utf8(chunk) {
                Some((decode_utf8(chunk), 4 + n))
            } else {
                None
            }
        }
    }
}

/// A text field reads back exactly as it was written, whatever follows it.
pub proof fn lemma_text_round_trip(s: Seq<char>, rest: Seq<u8>)
    requires
        wf_text(s),
    ensures
        spec_encode_text(s).len() == 4 + encode_utf8(s).len(),
        spec_decode_text(spec_encode_text(s) + rest) == Some((s, spec_encode_text(s).len() as int)),
{
    broadcast use vstd::utf8::encode_utf8_valid_utf8;

    lemma_auto_spec_u32_to_from_le_bytes();
    let n = encode_utf8(s).len() as int;
    let b = spec_encode_text(s) + rest;
    assert(b.subrange(0, 4) =~= spec_u32_to_le_bytes(encode_utf8(s).len() as u32));
    assert(b.subrange(4, 4 + n) =~= encode_utf8(s));
    vstd::utf8::encode_utf8_decode_utf8(s);
}

/// Whatever a text field decodes to, its wire form is exactly the bytes it
/// was read from: no other text produces them, and nothing was skipped.
pub proof fn lemma_text_decode_inverts(b: Seq<u8>)
    ensures
        spec_decode_text(b) matches Some((s, n)) ==> {
            &&& wf_text(s)
            &&& 4 <= n <= b.len()
            &&& spec_encode_text(s) == b.subrange(0, n)
        },
{
    broadcast use vstd::utf8::decode_utf8_encode_utf8;

    if spec_decode_text(b) is Some {
        lemma_auto_spec_u32_to_from_le_bytes();
        let header = b.subrange(0, 4);
        let l = spec_u32_from_le_bytes(header) as int;
        let chunk = b.subrange(4, 4 + l);
        let s = decode_utf8(chunk);
        assert(encode_utf8(s) == chunk);
        assert(spec_u32_to_le_bytes(spec_u32_from_le_bytes(header)) == header);
        assert(spec_encode_text(s) =~= b.subrange(0, 4 + l));
    }
}

/// Relies on `String::from_utf8`: it succeeds exactly on valid UTF-8 and
/// returns the string those bytes encode.
#[verifier::external_body]
pub(crate) fn string_from_utf8(bytes: Vec<u8>) -> (r: Option<String>)
    ensures
        r is Some <==> valid_utf8(bytes@),
        r matches Some(s) ==> s@ == decode_utf8(bytes@),
{
    String::from_utf8(bytes).ok()
}

/// Appends the wire form of `s` to `out`; text whose byte encoding
/// overflows the length header is rejected and `out` is left unchanged.
pub fn write_text(out: &mut Vec<u8>, s: &String) -> (ok: bool)
    ensures
        ok <==> wf_text(s@),
        ok ==> final(out)@ == old(out)@ + spec_encode_text(s@),
        !ok ==> final(out)@ == old(out)@,
{
    let bytes = s.as_str().as_bytes_vec();
    if bytes.len() > u32::MAX as usize {
        return false;
    }
    let mut header = u32_to_le_bytes(bytes.len() as u32);
    out.append(&mut header);
    let mut body = bytes;
    out.append(&mut body);
    true
}

/// Reads one text field starting at offset `o`; yields the text and the
/// number of bytes consumed.
pub fn read_text(b: &Vec<u8>, o: usize) -> (r: Option<(String, usize)>)
    requires
        o <= b@.len(),
    ensures
        match r {
            Some((s, n)) => {
                &&& spec_decode_text(b@.skip(o as int)) == Some((s@, n as int))
                &&& wf_text(s@)
                &&& encode_utf8(s@) == b@.subrange(o + 4, o + n)
                &&& 4 <= n
                &&& o + n <= b@.len()
            },
            None => spec_decode_text(b@.skip(o as int)) is None,
        },
{
    broadcast use vstd::utf8::decode_utf8_encode_utf8;

    let len = b.len();
    if len - o < 4 {
        return None;
    }
    let header = slice_subrange(b.as_slice(), o, o + 4);
    proof {
        assert(header@ =~= b@.skip(o as int).subrange(0, 4));
    }
    let n32 = u32_from_le_bytes(header);
    let n = n32 as usize;
    if len - o - 4 < n {
        return None;
    }
    let chunk = slice_to_vec(slice_subrange(b.as_slice(), o + 4, o + 4 + n));
    proof {
        assert(chunk@ =~= b@.skip(o as int).subrange(4, 4 + n as int));
    }
    match string_from_utf8(chunk) {
        Some(s) => {
            proof {
                assert(encode_utf8(s@) =~= b@.subrange(o + 4, o + 4 + n as int));
            }
            Some((s, 4 + n))
        },
        None => None,
    }
}

} // verus!
