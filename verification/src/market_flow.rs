//! The market-data walk-through: query the current market price of one
//! trading pair, then query its aggregated daily price history from a
//! fixed starting instant up to the present moment.

use vstd::prelude::*;

verus! {

/// Lower bound of the aggregated-price window, in seconds since the Unix epoch.
pub const AGGREGATION_START_SECS: u64 = 1_732_982_400;

/// The one trading pair every walk-through speaks about.
pub fn trading_symbol() -> (r: &'static str)
    ensures
        r@ == "ADAUSDM"@,
{
    "ADAUSDM"
}

/// Where the market walk-through stands: which reply it is waiting for,
/// or how it ended.
#[derive(Clone, Copy, Debug, PartialEq, Eq, Structural)]
pub enum MarketState {
    AwaitingMarketPrice,
    AwaitingAggregatedPrice,
    Done,
    Aborted,
}

/// What the driver reports back: the reply to the call last issued, or
/// that the call failed.  The market-price reply carries the clock
/// reading taken when it arrived, which bounds the aggregation window.
#[derive(Clone, Copy, Debug, PartialEq, Eq, Structural)]
pub enum MarketEvent {
    CallFailed,
    MarketPriceReceived { now_secs: u64 },
    AggregatedPriceReceived,
}

/// A remote call for the driver to perform.
#[derive(Clone, Copy, Debug, PartialEq, Eq, Structural)]
pub enum MarketCall {
    GetMarketPrice,
    GetAggregatedPrice { start_secs: u64, end_secs: i64 },
}

/// A state from which no further call is ever issued.
pub open spec fn is_terminal(state: MarketState) -> bool {
    state is Done || state is Aborted
}

/// The transition relation of the walk-through.  A failure, a reply that
/// does not answer the awaited call, or a clock reading too large for the
/// aggregation bound aborts the walk-through; otherwise each reply leads
/// to the next documented call.
pub open spec fn spec_advance(state: MarketState, event: MarketEvent) -> (MarketState, Option<
    MarketCall,
>) {
    match (state, event) {
        (MarketState::AwaitingMarketPrice, MarketEvent::MarketPriceReceived { now_secs }) => if now_secs
            <= i64::MAX as u64 {
            (
                MarketState::AwaitingAggregatedPrice,
                Some(
                    MarketCall::GetAggregatedPrice {
                        start_secs: AGGREGATION_START_SECS,
                        end_secs: now_secs as i64,
                    },
                ),
            )
        } else {
            (MarketState::Aborted, None)
        },
        (MarketState::AwaitingAggregatedPrice, MarketEvent::AggregatedPriceReceived) => (
            MarketState::Done,
            None,
        ),
        (MarketState::Done, _) => (MarketState::Done, None),
        (MarketState::Aborted, _) => (MarketState::Aborted, None),
        _ => (MarketState::Aborted, None),
    }
}

/// Begin the walk-through: the first documented call is the market-price
/// query, and the machine then awaits its reply.
pub fn start() -> (r: (MarketState, MarketCall))
    ensures
        r.0 == MarketState::AwaitingMarketPrice,
        r.1 == MarketCall::GetMarketPrice,
{
    (MarketState::AwaitingMarketPrice, MarketCall::GetMarketPrice)
}

/// Feed one event to the walk-through; the result is the next state and,
/// when one is owed, the next call to perform.
pub fn advance(state: MarketState, event: MarketEvent) -> (r: (MarketState, Option<MarketCall>))
    ensures
        r == spec_advance(state, event),
{
    match (state, event) {
        (MarketState::AwaitingMarketPrice, MarketEvent::MarketPriceReceived { now_secs }) => {
            if now_secs <= i64::MAX as u64 {
                (
                    MarketState::AwaitingAggregatedPrice,
                    Some(
                        MarketCall::GetAggregatedPrice {
                            start_secs: AGGREGATION_START_SECS,
                            end_secs: now_secs as i64,
                        },
                    ),
                )
            } else {
                (MarketState::Aborted, None)
            }
        },
        (MarketState::AwaitingAggregatedPrice, MarketEvent::AggregatedPriceReceived) => (
            MarketState::Done,
            None,
        ),
        (MarketState::Done, _) => (MarketState::Done, None),
        (MarketState::Aborted, _) => (MarketState::Aborted, None),
        _ => (MarketState::Aborted, None),
    }
}

/// Position of a state in the documented sequence: the rank of the call
/// it awaits, then the two ways of ending.
pub open spec fn state_rank(state: MarketState) -> nat {
    match state {
        MarketState::AwaitingMarketPrice => 1,
        MarketState::AwaitingAggregatedPrice => 2,
        MarketState::Done => 3,
        MarketState::Aborted => 4,
    }
}

/// Position of a call in the documented sequence.
pub open spec fn call_rank(call: MarketCall) -> nat {
    match call {
        MarketCall::GetMarketPrice => 1,
        MarketCall::GetAggregatedPrice { .. } => 2,
    }
}

/// All calls a walk-through issues from `state` while consuming `events`,
/// in the order it issues them.
pub open spec fn spec_run(state: MarketState, events: Seq<MarketEvent>) -> Seq<MarketCall>
    decreases events.len(),
{
    if events.len() == 0 {
        Seq::empty()
    } else {
        let stepped = spec_advance(state, events[0]);
        match stepped.1 {
            Option::Some(call) => seq![call] + spec_run(stepped.0, events.drop_first()),
            Option::None => spec_run(stepped.0, events.drop_first()),
        }
    }
}

/// `calls` are exactly the documented calls of ranks `rank + 1`,
/// `rank + 2`, ... in that order: none skipped, none repeated.
pub open spec fn consecutive_after(rank: nat, calls: Seq<MarketCall>) -> bool
    decreases calls.len(),
{
    calls.len() == 0 || (call_rank(calls[0]) == rank + 1 && consecutive_after(
        rank + 1,
        calls.drop_first(),
    ))
}

/// A failed call drives any live walk-through to the aborted state and
/// issues nothing more: every error propagates to termination.
pub proof fn lemma_failure_aborts(state: MarketState)
    requires
        !is_terminal(state),
    ensures
        spec_advance(state, MarketEvent::CallFailed) == (MarketState::Aborted, None::<MarketCall>),
{
}

/// A terminal state absorbs every event, and every transition from a live
/// state strictly advances the walk-through, so it ends after at most as
/// many events as there are documented calls.
pub proof fn lemma_progress(state: MarketState, event: MarketEvent)
    ensures
        is_terminal(state) ==> spec_advance(state, event) == (state, None::<MarketCall>),
        !is_terminal(state) ==> state_rank(spec_advance(state, event).0) > state_rank(state),
{
}

/// Whenever a transition issues a call, that call is the next documented
/// one, and the machine moves to the state that awaits its reply.
pub proof fn lemma_emission(state: MarketState, event: MarketEvent)
    ensures
        spec_advance(state, event).1 matches Some(call) ==> call_rank(call) == state_rank(state)
            + 1 && state_rank(spec_advance(state, event).0) == state_rank(state) + 1,
{
}

/// Once a walk-through has ended, no run from it issues any call.
pub proof fn lemma_terminal_run_empty(state: MarketState, events: Seq<MarketEvent>)
    requires
        is_terminal(state),
    ensures
        spec_run(state, events) == Seq::<MarketCall>::empty(),
    decreases events.len(),
{
    if events.len() > 0 {
        lemma_progress(state, events[0]);
        lemma_terminal_run_empty(state, events.drop_first());
    }
}

/// Whatever events arrive, the calls issued from any state are a
/// consecutive block of the documented sequence, beginning right after
/// that state's own position.
pub proof fn lemma_run_in_documented_order(state: MarketState, events: Seq<MarketEvent>)
    ensures
        consecutive_after(state_rank(state), spec_run(state, events)),
    decreases events.len(),
{
    if events.len() > 0 {
        let stepped = spec_advance(state, events[0]);
        lemma_run_in_documented_order(stepped.0, events.drop_first());
        match stepped.1 {
            Option::Some(call) => {
                lemma_emission(state, events[0]);
                let rest = spec_run(stepped.0, events.drop_first());
                assert((seq![call] + rest)[0] == call);
                assert((seq![call] + rest).drop_first() =~= rest);
            },
            Option::None => {
                if is_terminal(stepped.0) {
                    lemma_terminal_run_empty(stepped.0, events.drop_first());
                }
            },
        }
    }
}

/// A full walk-through from `start` issues a prefix of the documented
/// call sequence: the market-price query first, then the aggregated-price
/// query, in that order and each at most once.
pub proof fn lemma_full_trace_in_documented_order(events: Seq<MarketEvent>)
    ensures
        consecutive_after(
            0,
            seq![MarketCall::GetMarketPrice] + spec_run(MarketState::AwaitingMarketPrice, events),
        ),
{
    lemma_run_in_documented_order(MarketState::AwaitingMarketPrice, events);
    let rest = spec_run(MarketState::AwaitingMarketPrice, events);
    assert((seq![MarketCall::GetMarketPrice] + rest)[0] == MarketCall::GetMarketPrice);
    assert((seq![MarketCall::GetMarketPrice] + rest).drop_first() =~= rest);
}

} // verus!
