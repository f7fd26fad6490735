//! The order walk-through: load the operation key that authorises
//! transactions, place one fixed limit sell order, then cancel the very
//! order just placed.

use vstd::prelude::*;

verus! {

/// Base quantity of the one order the walk-through places.
pub const ORDER_QUANTITY: u64 = 100;

/// Limit price of the one order the walk-through places.
pub const ORDER_PRICE: u64 = 51;

/// Whether an order buys or sells the base asset.
#[derive(Clone, Copy, Debug, PartialEq, Eq, Structural)]
pub enum OrderSide {
    Buy,
    Sell,
}

/// How an order executes: at the market price, or at a limit price.
#[derive(Clone, Copy, Debug, PartialEq, Eq, Structural)]
pub enum OrderKind {
    Market,
    Limit,
}

/// Where the order walk-through stands: which reply it is waiting for,
/// or how it ended.
#[derive(Clone, Copy, Debug, PartialEq, Eq, Structural)]
pub enum OrderState {
    AwaitingOperationKey,
    AwaitingPostOrder,
    AwaitingCancelOrder,
    Done,
    Aborted,
}

/// What the driver reports back: the reply to the call last issued, or
/// that the call failed.  The post-order reply carries the id the
/// platform assigned, which the cancellation must name.
#[derive(Clone, Debug, PartialEq, Eq)]
pub enum OrderEvent {
    CallFailed,
    OperationKeyLoaded,
    OrderPosted { order_id: String },
    OrderCancelled,
}

/// A remote call for the driver to perform.
#[derive(Clone, Debug, PartialEq, Eq)]
pub enum OrderCall {
    LoadOperationKey,
    PostOrder { side: OrderSide, kind: OrderKind, quantity: u64, price: Option<u64>, post_only: bool },
    CancelOrder { order_id: String },
}

/// A state from which no further call is ever issued.
pub open spec fn is_terminal(state: OrderState) -> bool {
    state is Done || state is Aborted
}

/// The one order the walk-through places: a post-only limit sell of the
/// fixed quantity at the fixed price.
pub open spec fn spec_demo_order() -> OrderCall {
    OrderCall::PostOrder {
        side: OrderSide::Sell,
        kind: OrderKind::Limit,
        quantity: ORDER_QUANTITY,
        price: Some(ORDER_PRICE),
        post_only: false,
    }
}

/// The transition relation of the walk-through.  A failure or a reply
/// that does not answer the awaited call aborts it; otherwise each reply
/// leads to the next documented call, and the order cancelled is exactly
/// the one just placed.
pub open spec fn spec_advance(state: OrderState, event: OrderEvent) -> (OrderState, Option<
    OrderCall,
>) {
    match (state, event) {
        (OrderState::AwaitingOperationKey, OrderEvent::OperationKeyLoaded) => (
            OrderState::AwaitingPostOrder,
            Some(spec_demo_order()),
        ),
        (OrderState::AwaitingPostOrder, OrderEvent::OrderPosted { order_id }) => (
            OrderState::AwaitingCancelOrder,
            Some(OrderCall::CancelOrder { order_id }),
        ),
        (OrderState::AwaitingCancelOrder, OrderEvent::OrderCancelled) => (OrderState::Done, None),
        (OrderState::Done, _) => (OrderState::Done, None),
        (OrderState::Aborted, _) => (OrderState::Aborted, None),
        _ => (OrderState::Aborted, None),
    }
}

/// Begin the walk-through: the first documented call loads the operation
/// key, and the machine then awaits word that it is in place.
pub fn start() -> (r: (OrderState, OrderCall))
    ensures
        r.0 == OrderState::AwaitingOperationKey,
        r.1 == OrderCall::LoadOperationKey,
{
    (OrderState::AwaitingOperationKey, OrderCall::LoadOperationKey)
}

/// Feed one event to the walk-through; the result is the next state and,
/// when one is owed, the next call to perform.  The id named by the
/// cancellation is exactly the id the post-order reply carried.
pub fn advance(state: OrderState, event: OrderEvent) -> (r: (OrderState, Option<OrderCall>))
    ensures
        r == spec_advance(state, event),
{
    match (state, event) {
        (OrderState::AwaitingOperationKey, OrderEvent::OperationKeyLoaded) => (
            OrderState::AwaitingPostOrder,
            Some(
                OrderCall::PostOrder {
                    side: OrderSide::Sell,
                    kind: OrderKind::Limit,
                    quantity: ORDER_QUANTITY,
                    price: Some(ORDER_PRICE),
                    post_only: false,
                },
            ),
        ),
        (OrderState::AwaitingPostOrder, OrderEvent::OrderPosted { order_id }) => (
            OrderState::AwaitingCancelOrder,
            Some(OrderCall::CancelOrder { order_id }),
        ),
        (OrderState::AwaitingCancelOrder, OrderEvent::OrderCancelled) => (OrderState::Done, None),
        (OrderState::Done, _) => (OrderState::Done, None),
        (OrderState::Aborted, _) => (OrderState::Aborted, None),
        _ => (OrderState::Aborted, None),
    }
}

/// Position of a state in the documented sequence: the rank of the call
/// it awaits, then the two ways of ending.
pub open spec fn state_rank(state: OrderState) -> nat {
    match state {
        OrderState::AwaitingOperationKey => 1,
        OrderState::AwaitingPostOrder => 2,
        OrderState::AwaitingCancelOrder => 3,
        OrderState::Done => 4,
        OrderState::Aborted => 5,
    }
}

/// Position of a call in the documented sequence.
pub open spec fn call_rank(call: OrderCall) -> nat {
    match call {
        OrderCall::LoadOperationKey => 1,
        OrderCall::PostOrder { .. } => 2,
        OrderCall::CancelOrder { .. } => 3,
    }
}

/// All calls a walk-through issues from `state` while consuming `events`,
/// in the order it issues them.
pub open spec fn spec_run(state: OrderState, events: Seq<OrderEvent>) -> Seq<OrderCall>
    decreases events.len(),
{
    if events.len() == 0 {
        Seq::empty()
    } else {
        let stepped = spec_advance(state, events[0]);
        match stepped.1 {
            Option::Some(call) => seq![call] + spec_run(stepped.0, events.drop_first()),
            Option::None => spec_run(stepped.0, events.drop_first()),
        }
    }
}

/// `calls` are exactly the documented calls of ranks `rank + 1`,
/// `rank + 2`, ... in that order: none skipped, none repeated.
pub open spec fn consecutive_after(rank: nat, calls: Seq<OrderCall>) -> bool
    decreases calls.len(),
{
    calls.len() == 0 || (call_rank(calls[0]) == rank + 1 && consecutive_after(
        rank + 1,
        calls.drop_first(),
    ))
}

/// A failed call drives any live walk-through to the aborted state and
/// issues nothing more: every error propagates to termination.  In
/// particular no order is ever placed after a failed key load, and no
/// cancellation is ever issued after a failed placement.
pub proof fn lemma_failure_aborts(state: OrderState)
    requires
        !is_terminal(state),
    ensures
        spec_advance(state, OrderEvent::CallFailed) == (OrderState::Aborted, None::<OrderCall>),
{
}

/// A terminal state absorbs every event, and every transition from a live
/// state strictly advances the walk-through, so it ends after at most as
/// many events as there are documented calls.
pub proof fn lemma_progress(state: OrderState, event: OrderEvent)
    ensures
        is_terminal(state) ==> spec_advance(state, event) == (state, None::<OrderCall>),
        !is_terminal(state) ==> state_rank(spec_advance(state, event).0) > state_rank(state),
{
}

/// Whenever a transition issues a call, that call is the next documented
/// one, and the machine moves to the state that awaits its reply.
pub proof fn lemma_emission(state: OrderState, event: OrderEvent)
    ensures
        spec_advance(state, event).1 matches Some(call) ==> call_rank(call) == state_rank(state)
            + 1 && state_rank(spec_advance(state, event).0) == state_rank(state) + 1,
{
}

/// A cancellation is issued only for the id that the post-order reply
/// carried: the walk-through never cancels any order but its own.
pub proof fn lemma_cancel_names_posted_order(state: OrderState, event: OrderEvent)
    ensures
        spec_advance(state, event).1 matches Some(OrderCall::CancelOrder { order_id }) ==> {
            &&& state is AwaitingPostOrder
            &&& event == (OrderEvent::OrderPosted { order_id })
        },
{
}

/// An order is placed only after the operation key is reported loaded,
/// and it is always the one fixed demonstration order.
pub proof fn lemma_posts_only_demo_order(state: OrderState, event: OrderEvent)
    ensures
        spec_advance(state, event).1 matches Some(
            OrderCall::PostOrder { side, kind, quantity, price, post_only },
        ) ==> {
            &&& state is AwaitingOperationKey
            &&& event is OperationKeyLoaded
            &&& (OrderCall::PostOrder { side, kind, quantity, price, post_only })
                == spec_demo_order()
        },
{
}

/// Once a walk-through has ended, no run from it issues any call.
pub proof fn lemma_terminal_run_empty(state: OrderState, events: Seq<OrderEvent>)
    requires
        is_terminal(state),
    ensures
        spec_run(state, events) == Seq::<OrderCall>::empty(),
    decreases events.len(),
{
    if events.len() > 0 {
        lemma_progress(state, events[0]);
        lemma_terminal_run_empty(state, events.drop_first());
    }
}

/// Whatever events arrive, the calls issued from any state are a
/// consecutive block of the documented sequence, beginning right after
/// that state's own position.
pub proof fn lemma_run_in_documented_order(state: OrderState, events: Seq<OrderEvent>)
    ensures
        consecutive_after(state_rank(state), spec_run(state, events)),
    decreases events.len(),
{
    if events.len() > 0 {
        let stepped = spec_advance(state, events[0]);
        lemma_run_in_documented_order(stepped.0, events.drop_first());
        match stepped.1 {
            Option::Some(call) => {
                lemma_emission(state, events[0]);
                let rest = spec_run(stepped.0, events.drop_first());
                assert((seq![call] + rest)[0] == call);
                assert((seq![call] + rest).drop_first() =~= rest);
            },
            Option::None => {
                if is_terminal(stepped.0) {
                    lemma_terminal_run_empty(stepped.0, events.drop_first());
                }
            },
        }
    }
}

/// A full walk-through from `start` issues a prefix of the documented
/// call sequence: key load, order placement, cancellation, in that order
/// and each at most once.
pub proof fn lemma_full_trace_in_documented_order(events: Seq<OrderEvent>)
    ensures
        consecutive_after(
            0,
            seq![OrderCall::LoadOperationKey] + spec_run(OrderState::AwaitingOperationKey, events),
        ),
{
    lemma_run_in_documented_order(OrderState::AwaitingOperationKey, events);
    let rest = spec_run(OrderState::AwaitingOperationKey, events);
    assert((seq![OrderCall::LoadOperationKey] + rest)[0] == OrderCall::LoadOperationKey);
    assert((seq![OrderCall::LoadOperationKey] + rest).drop_first() =~= rest);
}

} // verus!
