//! Wire format of a trade event, as an off-chain log consumer reads it:
//! a fixed eight-byte schema tag, then the seven fields in declared order —
//! three length-prefixed UTF-8 text fields, the trade-type discriminant as
//! one byte, and three little-endian eight-byte integers (the signed
//! timestamp in two's complement). The instruction payload is the same
//! seven fields without the tag. Encoding is proved invertible.

use crate::text::{
    lemma_text_decode_inverts, lemma_text_round_trip, read_text, spec_decode_text,
    spec_encode_text, wf_text, write_text,
};
use crate::trade::{
    decode_trade_type, spec_decode_trade_type, spec_trade_type_tag, trade_type_tag, TradeEvent,
    TradeEventView,
};
use vstd::bytes::{
    lemma_auto_spec_u64_to_from_le_bytes, spec_u64_from_le_bytes, spec_u64_to_le_bytes,
    u64_from_le_bytes, u64_to_le_bytes,
};
use vstd::prelude::*;
use vstd::slice::{slice_index_get, slice_subrange};

verus! {

/// The schema tag under which trade events appear in the structured log:
/// the leading eight bytes of every encoded event, fixed so that off-chain
/// indexers can recognize the record kind.
pub open spec fn spec_event_tag() -> Seq<u8> {
    seq![189u8, 219u8, 127u8, 211u8, 78u8, 230u8, 97u8, 238u8]
}

/// The schema tag as a byte vector.
pub fn event_tag() -> (r: Vec<u8>)
    ensures
        r@ == spec_event_tag(),
{
    let mut v: Vec<u8> = Vec::new();
    v.push(189);
    v.push(219);
    v.push(127);
    v.push(211);
    v.push(78);
    v.push(230);
    v.push(97);
    v.push(238);
    proof {
        assert(v@ =~= spec_event_tag());
    }
    v
}

/// Whether a record fits the wire format: each text field's byte encoding
/// must fit its four-byte length header.
pub open spec fn wf_event(e: TradeEventView) -> bool {
    wf_text(e.id) && wf_text(e.user_id) && wf_text(e.fund_id)
}

/// Wire form of the seven fields, in declared order.
pub open spec fn spec_encode_fields(e: TradeEventView) -> Seq<u8>
    recommends
        wf_event(e),
{
    spec_encode_text(e.id) + spec_encode_text(e.user_id) + spec_encode_text(e.fund_id)
        + seq![spec_trade_type_tag(e.trade_type)] + spec_u64_to_le_bytes(e.amount)
        + spec_u64_to_le_bytes(e.price) + spec_u64_to_le_bytes(e.timestamp as u64)
}

/// Reads the seven fields back; succeeds only when the bytes are exactly
/// one field encoding, with nothing left over.
pub open spec fn spec_decode_fields(b: Seq<u8>) -> Option<TradeEventView> {
    match spec_decode_text(b) {
        None => None,
        Some((id, n1)) => match spec_decode_text(b.skip(n1)) {
            None => None,
            Some((user_id, n2)) => match spec_decode_text(b.skip(n1).skip(n2)) {
                None => None,
                Some((fund_id, n3)) => {
                    let t = b.skip(n1).skip(n2).skip(n3);
                    if t.len() != 25 {
                        None
                    } else {
                        match spec_decode_trade_type(t[0]) {
                            None => None,
                            Some(trade_type) => Some(
                                TradeEventView {
                                    id,
                                    user_id,
                                    fund_id,
                                    trade_type,
                                    amount: spec_u64_from_le_bytes(t.subrange(1, 9)),
                                    price: spec_u64_from_le_bytes(t.subrange(9, 17)),
                                    timestamp: spec_u64_from_le_bytes(t.subrange(17, 25)) as i64,
                                },
                            ),
                        }
                    }
                },
            },
        },
    }
}

/// Wire form of a whole event record as emitted to the structured log.
pub open spec fn spec_encode_event(e: TradeEventView) -> Seq<u8>
    recommends
        wf_event(e),
{
    spec_event_tag() + spec_encode_fields(e)
}

/// Reads an event record back from the structured log; succeeds only on
/// bytes that carry the schema tag followed by exactly one field encoding.
pub open spec fn spec_decode_event(b: Seq<u8>) -> Option<TradeEventView> {
    if b.len() < 8 || b.subrange(0, 8) != spec_event_tag() {
        None
    } else {
        spec_decode_fields(b.skip(8))
    }
}

/// Casting a signed 64-bit value through its unsigned two's-complement
/// image and back is the identity.
proof fn lemma_i64_cast_round_trip(x: i64)
    ensures
        ((x as u64) as i64) == x,
{
    assert(((x as u64) as i64) == x) by (bit_vector);
}

/// The seven fields read back exactly as they were written.
pub proof fn lemma_fields_round_trip(e: TradeEventView)
    requires
        wf_event(e),
    ensures
        spec_decode_fields(spec_encode_fields(e)) == Some(e),
{
    lemma_auto_spec_u64_to_from_le_bytes();
    let enc1 = spec_encode_text(e.id);
    let enc2 = spec_encode_text(e.user_id);
    let enc3 = spec_encode_text(e.fund_id);
    let tail = seq![spec_trade_type_tag(e.trade_type)] + spec_u64_to_le_bytes(e.amount)
        + spec_u64_to_le_bytes(e.price) + spec_u64_to_le_bytes(e.timestamp as u64);
    let b = spec_encode_fields(e);
    assert(b =~= enc1 + (enc2 + (enc3 + tail)));
    lemma_text_round_trip(e.id, enc2 + (enc3 + tail));
    let n1 = enc1.len() as int;
    assert(b.skip(n1) =~= enc2 + (enc3 + tail));
    lemma_text_round_trip(e.user_id, enc3 + tail);
    let n2 = enc2.len() as int;
    assert(b.skip(n1).skip(n2) =~= enc3 + tail);
    lemma_text_round_trip(e.fund_id, tail);
    let n3 = enc3.len() as int;
    let t = b.skip(n1).skip(n2).skip(n3);
    assert(t =~= tail);
    assert(t.len() == 25);
    assert(t[0] == spec_trade_type_tag(e.trade_type));
    assert(t.subrange(1, 9) =~= spec_u64_to_le_bytes(e.amount));
    assert(t.subrange(9, 17) =~= spec_u64_to_le_bytes(e.price));
    assert(t.subrange(17, 25) =~= spec_u64_to_le_bytes(e.timestamp as u64));
    lemma_i64_cast_round_trip(e.timestamp);
    assert(spec_decode_fields(b) == Some(e));
}

/// A whole event record reads back exactly as it was emitted.
pub proof fn lemma_event_round_trip(e: TradeEventView)
    requires
        wf_event(e),
    ensures
        spec_decode_event(spec_encode_event(e)) == Some(e),
{
    let b = spec_encode_event(e);
    assert(b.subrange(0, 8) =~= spec_event_tag());
    assert(b.skip(8) =~= spec_encode_fields(e));
    lemma_fields_round_trip(e);
}

/// Casting an unsigned 64-bit value through its signed two's-complement
/// reading and back is the identity.
proof fn lemma_u64_cast_round_trip(x: u64)
    ensures
        ((x as i64) as u64) == x,
{
    assert(((x as i64) as u64) == x) by (bit_vector);
}

/// Whatever record the seven fields decode to, encoding it reproduces the
/// bytes exactly: the wire format is unambiguous.
pub proof fn lemma_fields_decode_inverts(b: Seq<u8>)
    ensures
        spec_decode_fields(b) matches Some(e) ==> wf_event(e) && b == spec_encode_fields(e),
{
    lemma_auto_spec_u64_to_from_le_bytes();
    if spec_decode_fields(b) is Some {
        lemma_text_decode_inverts(b);
        let (id, n1) = spec_decode_text(b)->Some_0;
        let r1 = b.skip(n1);
        lemma_text_decode_inverts(r1);
        let (user_id, n2) = spec_decode_text(r1)->Some_0;
        let r2 = r1.skip(n2);
        lemma_text_decode_inverts(r2);
        let (fund_id, n3) = spec_decode_text(r2)->Some_0;
        let t = r2.skip(n3);
        let e = spec_decode_fields(b)->Some_0;
        assert(t[0] == spec_trade_type_tag(e.trade_type));
        assert(spec_u64_to_le_bytes(e.amount) == t.subrange(1, 9));
        assert(spec_u64_to_le_bytes(e.price) == t.subrange(9, 17));
        lemma_u64_cast_round_trip(spec_u64_from_le_bytes(t.subrange(17, 25)));
        assert(spec_u64_to_le_bytes(e.timestamp as u64) == t.subrange(17, 25));
        assert(spec_encode_text(id) == b.subrange(0, n1));
        assert(r1.subrange(0, n2) =~= b.subrange(n1, n1 + n2));
        assert(spec_encode_text(user_id) == b.subrange(n1, n1 + n2));
        assert(r2.subrange(0, n3) =~= b.subrange(n1 + n2, n1 + n2 + n3));
        assert(spec_encode_text(fund_id) == b.subrange(n1 + n2, n1 + n2 + n3));
        assert(t =~= b.subrange(n1 + n2 + n3, b.len() as int));
        assert(b =~= spec_encode_fields(e));
    }
}

/// Whatever record an event decodes to, encoding it reproduces the logged
/// bytes exactly.
pub proof fn lemma_event_decode_inverts(b: Seq<u8>)
    ensures
        spec_decode_event(b) matches Some(e) ==> wf_event(e) && b == spec_encode_event(e),
{
    if spec_decode_event(b) is Some {
        lemma_fields_decode_inverts(b.skip(8));
        assert(b =~= spec_event_tag() + spec_encode_fields(spec_decode_event(b)->Some_0));
    }
}

/// Encodes the seven fields of a record, in declared order; a record whose
/// text fields overflow a length header is rejected.
pub fn encode_fields(e: &TradeEvent) -> (r: Option<Vec<u8>>)
    ensures
        r is Some <==> wf_event(e@),
        r matches Some(v) ==> v@ == spec_encode_fields(e@),
{
    let mut out: Vec<u8> = Vec::new();
    if !write_text(&mut out, &e.id) {
        return None;
    }
    if !write_text(&mut out, &e.user_id) {
        return None;
    }
    if !write_text(&mut out, &e.fund_id) {
        return None;
    }
    out.push(trade_type_tag(e.trade_type));
    let mut amount_bytes = u64_to_le_bytes(e.amount);
    out.append(&mut amount_bytes);
    let mut price_bytes = u64_to_le_bytes(e.price);
    out.append(&mut price_bytes);
    let mut timestamp_bytes = u64_to_le_bytes(e.timestamp as u64);
    out.append(&mut timestamp_bytes);
    proof {
        assert(out@ =~= spec_encode_fields(e@));
    }
    Some(out)
}

/// Decodes an instruction payload: the seven fields in order, with nothing
/// left over. Every decoded record is well formed and re-encodes to the
/// same bytes.
pub fn decode_fields(b: &Vec<u8>) -> (r: Option<TradeEvent>)
    ensures
        match r {
            Some(e) => spec_decode_fields(b@) == Some(e@) && wf_event(e@),
            None => spec_decode_fields(b@) is None,
        },
{
    let total = b.len();
    proof {
        assert(b@.skip(0) =~= b@);
    }
    let (id, n1) = match read_text(b, 0) {
        Some(x) => x,
        None => {
            return None;
        },
    };
    let (user_id, n2) = match read_text(b, n1) {
        Some(x) => x,
        None => {
            return None;
        },
    };
    proof {
        assert(b@.skip(n1 as int).skip(n2 as int) =~= b@.skip(n1 + n2));
    }
    let (fund_id, n3) = match read_text(b, n1 + n2) {
        Some(x) => x,
        None => {
            return None;
        },
    };
    let o = n1 + n2 + n3;
    proof {
        assert(b@.skip(n1 as int).skip(n2 as int).skip(n3 as int) =~= b@.skip(o as int));
    }
    if total - o != 25 {
        return None;
    }
    let d = *slice_index_get(b.as_slice(), o);
    proof {
        assert(d == b@.skip(o as int)[0]);
    }
    let trade_type = match decode_trade_type(d) {
        Some(t) => t,
        None => {
            return None;
        },
    };
    let amount_slice = slice_subrange(b.as_slice(), o + 1, o + 9);
    proof {
        assert(amount_slice@ =~= b@.skip(o as int).subrange(1, 9));
    }
    let amount = u64_from_le_bytes(amount_slice);
    let price_slice = slice_subrange(b.as_slice(), o + 9, o + 17);
    proof {
        assert(price_slice@ =~= b@.skip(o as int).subrange(9, 17));
    }
    let price = u64_from_le_bytes(price_slice);
    let timestamp_slice = slice_subrange(b.as_slice(), o + 17, o + 25);
    proof {
        assert(timestamp_slice@ =~= b@.skip(o as int).subrange(17, 25));
    }
    let timestamp_bits = u64_from_le_bytes(timestamp_slice);
    let event = TradeEvent {
        id,
        user_id,
        fund_id,
        trade_type,
        amount,
        price,
        timestamp: #[verifier::truncate] (timestamp_bits as i64),
    };
    Some(event)
}

/// Encodes a whole event record for the structured log: the schema tag,
/// then the seven fields.
pub fn encode_event(e: &TradeEvent) -> (r: Option<Vec<u8>>)
    ensures
        r is Some <==> wf_event(e@),
        r matches Some(v) ==> v@ == spec_encode_event(e@),
{
    let mut out = event_tag();
    match encode_fields(e) {
        Some(mut body) => {
            out.append(&mut body);
            proof {
                assert(out@ =~= spec_encode_event(e@));
            }
            Some(out)
        },
        None => None,
    }
}

/// Whether the first eight bytes of `b` are the schema tag.
fn has_event_tag(b: &Vec<u8>) -> (r: bool)
    requires
        b@.len() >= 8,
    ensures
        r <==> b@.subrange(0, 8) == spec_event_tag(),
{
    let tag = event_tag();
    let mut i: usize = 0;
    while i < 8
        invariant
            0 <= i <= 8,
            b@.len() >= 8,
            tag@ == spec_event_tag(),
            forall|j: int| 0 <= j < i ==> b@[j] == spec_event_tag()[j],
        decreases 8 - i,
    {
        let lhs = *slice_index_get(b.as_slice(), i);
        let rhs = *slice_index_get(tag.as_slice(), i);
        if lhs != rhs {
            proof {
                assert(b@.subrange(0, 8)[i as int] != spec_event_tag()[i as int]);
            }
            return false;
        }
        i += 1;
    }
    proof {
        assert(b@.subrange(0, 8) =~= spec_event_tag());
    }
    true
}

/// Decodes an event record as an off-chain log consumer would: checks the
/// schema tag, then reads the seven fields.
pub fn decode_event(b: &Vec<u8>) -> (r: Option<TradeEvent>)
    ensures
        match r {
            Some(e) => spec_decode_event(b@) == Some(e@) && wf_event(e@),
            None => spec_decode_event(b@) is None,
        },
{
    if b.len() < 8 {
        return None;
    }
    if !has_event_tag(b) {
        return None;
    }
    let body = slice_subrange(b.as_slice(), 8, b.len());
    let body_vec = vstd::slice::slice_to_vec(body);
    proof {
        assert(body_vec@ =~= b@.skip(8));
    }
    match decode_fields(&body_vec) {
        Some(e) => Some(e),
        None => None,
    }
}

} // verus!
