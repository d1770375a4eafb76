//! The trade data model: the closed `TradeType` enumeration, the
//! `TradeEvent` record, and the errors an invocation can be rejected with.

use vstd::prelude::*;

verus! {

/// The two kinds of trade an event can record. The enumeration is closed:
/// no other discriminant decodes to a value of this type.
#[derive(Clone, Copy, PartialEq, Eq, Structural, Debug)]
pub enum TradeType {
    BUY,
    SELL,
}

/// Wire discriminant of a trade type: `BUY` is 0, `SELL` is 1.
pub open spec fn spec_trade_type_tag(t: TradeType) -> u8 {
    match t {
        TradeType::BUY => 0,
        TradeType::SELL => 1,
    }
}

/// Decoding of a wire discriminant; every value outside {0, 1} is rejected.
pub open spec fn spec_decode_trade_type(d: u8) -> Option<TradeType> {
    if d == 0 {
        Some(TradeType::BUY)
    } else if d == 1 {
        Some(TradeType::SELL)
    } else {
        None
    }
}

/// Encodes a trade type as its wire discriminant.
pub fn trade_type_tag(t: TradeType) -> (r: u8)
    ensures
        r == spec_trade_type_tag(t),
{
    match t {
        TradeType::BUY => 0,
        TradeType::SELL => 1,
    }
}

/// Decodes a wire discriminant, rejecting everything outside the closed set.
pub fn decode_trade_type(d: u8) -> (r: Option<TradeType>)
    ensures
        r == spec_decode_trade_type(d),
        r is Some <==> (d == 0 || d == 1),
        r matches Some(t) ==> spec_trade_type_tag(t) == d,
{
    if d == 0 {
        Some(TradeType::BUY)
    } else if d == 1 {
        Some(TradeType::SELL)
    } else {
        None
    }
}

/// A trade record, constructed once per invocation and never mutated.
/// Every field is carried verbatim from the caller; the component itself
/// enforces no range or uniqueness constraint on any of them.
pub struct TradeEvent {
    pub id: String,
    pub user_id: String,
    pub fund_id: String,
    pub trade_type: TradeType,
    pub amount: u64,
    pub price: u64,
    pub timestamp: i64,
}

/// The mathematical content of a trade record.
pub struct TradeEventView {
    pub id: Seq<char>,
    pub user_id: Seq<char>,
    pub fund_id: Seq<char>,
    pub trade_type: TradeType,
    pub amount: u64,
    pub price: u64,
    pub timestamp: i64,
}

impl View for TradeEvent {
    type V = TradeEventView;

    open spec fn view(&self) -> TradeEventView {
        TradeEventView {
            id: self.id@,
            user_id: self.user_id@,
            fund_id: self.fund_id@,
            trade_type: self.trade_type,
            amount: self.amount,
            price: self.price,
            timestamp: self.timestamp,
        }
    }
}

/// Why an invocation was rejected. No failure is possible once emission
/// has been accepted; each variant names a check that failed beforehand.
#[derive(Clone, Copy, PartialEq, Eq, Structural, Debug)]
pub enum TradeError {
    /// The supplied account was not verified as a transaction signer.
    MissingSigner,
    /// The instruction payload did not decode to the expected seven fields.
    MalformedPayload,
    /// A text field's byte encoding is too long for the wire format's
    /// length header.
    OversizedField,
}

} // verus!
