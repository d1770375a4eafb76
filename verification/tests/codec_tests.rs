use trade_recorder::codec::{decode_event, decode_fields, encode_event, encode_fields, event_tag};
use trade_recorder::trade::{decode_trade_type, trade_type_tag, TradeEvent, TradeType};

fn sample_event(
    id: &str,
    user_id: &str,
    fund_id: &str,
    trade_type: TradeType,
    amount: u64,
    price: u64,
    timestamp: i64,
) -> TradeEvent {
    TradeEvent {
        id: String::from(id),
        user_id: String::from(user_id),
        fund_id: String::from(fund_id),
        trade_type,
        amount,
        price,
        timestamp,
    }
}

#[test]
fn trade_type_discriminants_are_closed() {
    assert_eq!(decode_trade_type(0), Some(TradeType::BUY));
    assert_eq!(decode_trade_type(1), Some(TradeType::SELL));
    let mut d: u16 = 2;
    while d <= 255 {
        assert_eq!(decode_trade_type(d as u8), None);
        d += 1;
    }
    assert_eq!(trade_type_tag(TradeType::BUY), 0);
    assert_eq!(trade_type_tag(TradeType::SELL), 1);
}

#[test]
fn fields_encode_to_exact_bytes() {
    let e = sample_event("a", "b", "c", TradeType::BUY, 1, 2, -1);
    let bytes = encode_fields(&e).unwrap();
    let mut expected: Vec<u8> = Vec::new();
    expected.extend_from_slice(&[1, 0, 0, 0, 97]);
    expected.extend_from_slice(&[1, 0, 0, 0, 98]);
    expected.extend_from_slice(&[1, 0, 0, 0, 99]);
    expected.push(0);
    expected.extend_from_slice(&[1, 0, 0, 0, 0, 0, 0, 0]);
    expected.extend_from_slice(&[2, 0, 0, 0, 0, 0, 0, 0]);
    expected.extend_from_slice(&[255, 255, 255, 255, 255, 255, 255, 255]);
    assert_eq!(bytes, expected);
}

#[test]
fn event_encoding_carries_schema_tag() {
    let e = sample_event("id", "user", "fund", TradeType::SELL, 7, 9, 11);
    let event_bytes = encode_event(&e).unwrap();
    let body = encode_fields(&e).unwrap();
    let tag = event_tag();
    assert_eq!(tag, vec![189, 219, 127, 211, 78, 230, 97, 238]);
    assert_eq!(&event_bytes[..8], &tag[..]);
    assert_eq!(&event_bytes[8..], &body[..]);
}

#[test]
fn event_round_trip_preserves_every_field() {
    let e = sample_event("h\u{e9}llo", "", "fund-1", TradeType::SELL, 0, 0, -42);
    let bytes = encode_event(&e).unwrap();
    let back = decode_event(&bytes).unwrap();
    assert_eq!(back.id, "h\u{e9}llo");
    assert_eq!(back.user_id, "");
    assert_eq!(back.fund_id, "fund-1");
    assert_eq!(back.trade_type, TradeType::SELL);
    assert_eq!(back.amount, 0);
    assert_eq!(back.price, 0);
    assert_eq!(back.timestamp, -42);
}

#[test]
fn fields_round_trip_preserves_every_field() {
    let e = sample_event("t1", "u1", "f1", TradeType::BUY, 100, 50, 1000);
    let bytes = encode_fields(&e).unwrap();
    let back = decode_fields(&bytes).unwrap();
    assert_eq!(back.id, "t1");
    assert_eq!(back.user_id, "u1");
    assert_eq!(back.fund_id, "f1");
    assert_eq!(back.trade_type, TradeType::BUY);
    assert_eq!(back.amount, 100);
    assert_eq!(back.price, 50);
    assert_eq!(back.timestamp, 1000);
}

#[test]
fn decoding_rejects_out_of_range_discriminant() {
    // Three empty text fields, then discriminant 2, then the three integers.
    let mut payload: Vec<u8> = Vec::new();
    payload.extend_from_slice(&[0; 12]);
    payload.push(2);
    payload.extend_from_slice(&[0; 24]);
    assert!(decode_fields(&payload).is_none());
    // Discriminants 0 and 1 are the only ones accepted in the same position.
    payload[12] = 0;
    assert!(decode_fields(&payload).is_some());
    payload[12] = 1;
    assert!(decode_fields(&payload).is_some());
    payload[12] = 255;
    assert!(decode_fields(&payload).is_none());
}

#[test]
fn decoding_rejects_invalid_utf8() {
    // One text field of length 1 whose byte is not valid UTF-8.
    let mut payload: Vec<u8> = Vec::new();
    payload.extend_from_slice(&[1, 0, 0, 0, 255]);
    payload.extend_from_slice(&[0; 8]);
    payload.push(0);
    payload.extend_from_slice(&[0; 24]);
    assert!(decode_fields(&payload).is_none());
}

#[test]
fn decoding_rejects_truncated_and_padded_payloads() {
    let e = sample_event("x", "y", "z", TradeType::BUY, 3, 4, 5);
    let good = encode_fields(&e).unwrap();
    assert!(decode_fields(&good).is_some());
    let mut truncated = good.clone();
    truncated.pop();
    assert!(decode_fields(&truncated).is_none());
    let mut padded = good.clone();
    padded.push(0);
    assert!(decode_fields(&padded).is_none());
}

#[test]
fn decoding_rejects_wrong_schema_tag() {
    let e = sample_event("x", "y", "z", TradeType::BUY, 3, 4, 5);
    let mut bytes = encode_event(&e).unwrap();
    assert!(decode_event(&bytes).is_some());
    bytes[0] = bytes[0].wrapping_add(1);
    assert!(decode_event(&bytes).is_none());
    let short: Vec<u8> = vec![189, 219, 127];
    assert!(decode_event(&short).is_none());
}
