//! The trade-event recorder: validates the caller's account context,
//! builds the record verbatim from the instruction arguments, and appends
//! its wire encoding to the event log together with a diagnostic trace
//! entry. The log is an in-memory image of the runtime's two per-
//! transaction output channels; the surrounding program hands its entries
//! to the runtime once the handler returns.

use crate::codec::{
    decode_fields, encode_event, lemma_event_round_trip, spec_decode_event, spec_decode_fields,
    spec_encode_event, wf_event,
};
use crate::trade::{TradeError, TradeEvent, TradeEventView, TradeType};
use vstd::prelude::*;

verus! {

/// One account as the ledger runtime presents it to an instruction: the
/// flags the runtime has already established about it.
pub struct AccountInfo {
    /// Whether the runtime verified this account as a transaction signer.
    pub is_signer: bool,
    /// Whether the transaction declared the account writable. The recorder
    /// declares its account writable but never writes account state.
    pub is_writable: bool,
}

/// The account context of the trade-logging instruction: a single account
/// that must be a verified transaction signer.
pub struct LogTrade {
    pub signer: AccountInfo,
}

/// One entry of the diagnostic trace stream: the values the recorder
/// reports about each emitted event.
pub struct TraceLine {
    pub id: String,
    pub trade_type: TradeType,
    pub amount: u64,
    pub price: u64,
}

/// The mathematical content of a trace entry.
pub struct TraceLineView {
    pub id: Seq<char>,
    pub trade_type: TradeType,
    pub amount: u64,
    pub price: u64,
}

impl View for TraceLine {
    type V = TraceLineView;

    open spec fn view(&self) -> TraceLineView {
        TraceLineView {
            id: self.id@,
            trade_type: self.trade_type,
            amount: self.amount,
            price: self.price,
        }
    }
}

/// The two append-only output channels of one invocation: the structured
/// event log read by off-chain indexers, and the free-text trace stream.
/// Entries are only ever appended, never read back or rewritten by the
/// recorder itself.
pub struct EventLog {
    events: Vec<Vec<u8>>,
    traces: Vec<TraceLine>,
}

/// The mathematical content of the two channels.
pub struct EventLogView {
    pub events: Seq<Seq<u8>>,
    pub traces: Seq<TraceLineView>,
}

impl View for EventLog {
    type V = EventLogView;

    closed spec fn view(&self) -> EventLogView {
        EventLogView {
            events: self.events.deep_view(),
            traces: self.traces@.map_values(|t: TraceLine| t@),
        }
    }
}

impl EventLog {
    /// An empty log: nothing has been emitted yet.
    pub fn new() -> (r: EventLog)
        ensures
            r@.events == Seq::<Seq<u8>>::empty(),
            r@.traces == Seq::<TraceLineView>::empty(),
    {
        let r = EventLog { events: Vec::new(), traces: Vec::new() };
        proof {
            assert(r@.events =~= Seq::<Seq<u8>>::empty());
            assert(r@.traces =~= Seq::<TraceLineView>::empty());
        }
        r
    }

    /// How many events have been emitted.
    pub fn event_count(&self) -> (n: usize)
        ensures
            n == self@.events.len(),
    {
        self.events.len()
    }

    /// How many trace entries have been written.
    pub fn trace_count(&self) -> (n: usize)
        ensures
            n == self@.traces.len(),
    {
        self.traces.len()
    }

    /// The bytes of the `i`-th emitted event.
    pub fn event_at(&self, i: usize) -> (r: &Vec<u8>)
        requires
            i < self@.events.len(),
        ensures
            r@ == self@.events[i as int],
    {
        &self.events[i]
    }

    /// The `i`-th trace entry.
    pub fn trace_at(&self, i: usize) -> (r: &TraceLine)
        requires
            i < self@.traces.len(),
        ensures
            r@ == self@.traces[i as int],
    {
        &self.traces[i]
    }

    /// Appends one encoded event to the structured log.
    fn push_event(&mut self, bytes: Vec<u8>)
        ensures
            final(self)@.events == old(self)@.events.push(bytes@),
            final(self)@.traces == old(self)@.traces,
    {
        let ghost pre = self@;
        self.events.push(bytes);
        proof {
            assert(self@.events =~~= pre.events.push(bytes@));
            assert(self@.traces =~~= pre.traces);
        }
    }

    /// Appends one entry to the trace stream.
    fn push_trace(&mut self, line: TraceLine)
        ensures
            final(self)@.traces == old(self)@.traces.push(line@),
            final(self)@.events == old(self)@.events,
    {
        let ghost pre = self@;
        self.traces.push(line);
        proof {
            assert(self@.traces =~~= pre.traces.push(line@));
            assert(self@.events =~~= pre.events);
        }
    }
}

/// The record the recorder builds from the instruction arguments: every
/// field is taken verbatim, nothing is transformed or clamped.
pub open spec fn event_of_args(
    id: Seq<char>,
    user_id: Seq<char>,
    fund_id: Seq<char>,
    trade_type: TradeType,
    amount: u64,
    price: u64,
    timestamp: i64,
) -> TradeEventView {
    TradeEventView { id, user_id, fund_id, trade_type, amount, price, timestamp }
}

/// The trace entry the recorder writes beside an emitted event.
pub open spec fn trace_of(e: TradeEventView) -> TraceLineView {
    TraceLineView { id: e.id, trade_type: e.trade_type, amount: e.amount, price: e.price }
}

/// The trade-logging instruction handler. With a verified signer it
/// builds the record verbatim from the arguments, appends its encoding to
/// the event log, and writes one trace entry; without one it rejects the
/// call and emits nothing. The only other rejection is a text field too
/// long for the wire format's length header.
pub fn log_trade(
    ctx: &LogTrade,
    log: &mut EventLog,
    id: String,
    user_id: String,
    fund_id: String,
    trade_type: TradeType,
    amount: u64,
    price: u64,
    timestamp: i64,
) -> (r: Result<(), TradeError>)
    ensures
        ({
            let ev = event_of_args(id@, user_id@, fund_id@, trade_type, amount, price, timestamp);
            &&& (r is Ok <==> ctx.signer.is_signer && wf_event(ev))
            &&& match r {
                Ok(_) => {
                    &&& final(log)@.events == old(log)@.events.push(spec_encode_event(ev))
                    &&& final(log)@.traces == old(log)@.traces.push(trace_of(ev))
                },
                Err(e) => {
                    &&& final(log)@.events == old(log)@.events
                    &&& final(log)@.traces == old(log)@.traces
                    &&& match e {
                        TradeError::MissingSigner => !ctx.signer.is_signer,
                        TradeError::OversizedField => ctx.signer.is_signer && !wf_event(ev),
                        TradeError::MalformedPayload => false,
                    }
                },
            }
        }),
{
    if !ctx.signer.is_signer {
        return Err(TradeError::MissingSigner);
    }
    let event = TradeEvent {
        id: id.clone(),
        user_id,
        fund_id,
        trade_type,
        amount,
        price,
        timestamp,
    };
    match encode_event(&event) {
        None => Err(TradeError::OversizedField),
        Some(bytes) => {
            log.push_event(bytes);
            log.push_trace(TraceLine { id, trade_type, amount, price });
            Ok(())
        },
    }
}

/// Runs the trade-logging instruction from its serialized payload, as the
/// runtime's dispatch does: a payload that does not decode to the seven
/// expected fields is rejected before the handler body, and nothing is
/// emitted.
pub fn process_log_trade(ctx: &LogTrade, log: &mut EventLog, payload: &Vec<u8>) -> (r: Result<
    (),
    TradeError,
>)
    ensures
        match spec_decode_fields(payload@) {
            None => {
                &&& r == Err::<(), TradeError>(TradeError::MalformedPayload)
                &&& final(log)@.events == old(log)@.events
                &&& final(log)@.traces == old(log)@.traces
            },
            Some(ev) => {
                &&& (r is Ok <==> ctx.signer.is_signer)
                &&& match r {
                    Ok(_) => {
                        &&& final(log)@.events == old(log)@.events.push(spec_encode_event(ev))
                        &&& final(log)@.traces == old(log)@.traces.push(trace_of(ev))
                    },
                    Err(e) => {
                        &&& e == TradeError::MissingSigner
                        &&& !ctx.signer.is_signer
                        &&& final(log)@.events == old(log)@.events
                        &&& final(log)@.traces == old(log)@.traces
                    },
                }
            },
        },
{
    match decode_fields(payload) {
        None => Err(TradeError::MalformedPayload),
        Some(event) => {
            let TradeEvent { id, user_id, fund_id, trade_type, amount, price, timestamp } = event;
            log_trade(ctx, log, id, user_id, fund_id, trade_type, amount, price, timestamp)
        },
    }
}

/// Emitting the same record twice appends two separate entries — the log
/// deduplicates nothing: both entries stand at distinct positions, hold
/// the same bytes, and both decode back to the same field values.
pub proof fn lemma_repeat_emission_two_entries(events: Seq<Seq<u8>>, e: TradeEventView)
    requires
        wf_event(e),
    ensures
        ({
            let twice = events.push(spec_encode_event(e)).push(spec_encode_event(e));
            &&& twice.len() == events.len() + 2
            &&& twice[events.len() as int] == spec_encode_event(e)
            &&& twice[events.len() as int + 1] == spec_encode_event(e)
            &&& spec_decode_event(twice[events.len() as int]) == Some(e)
            &&& spec_decode_event(twice[events.len() as int + 1]) == Some(e)
        }),
{
    lemma_event_round_trip(e);
}

} // verus!
