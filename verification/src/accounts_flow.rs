//! The account walk-through: query the account balance, the deposit
//! records, the withdrawal records, then the open orders, and finally
//! the single order that heads the open-order page.

use vstd::prelude::*;

verus! {

/// The one thing the walk-through reads from an order entry: its id.
#[derive(Clone, Debug, PartialEq, Eq)]
pub struct OrderSummary {
    pub order_id: String,
}

/// One page of open orders, as the walk-through sees it.
#[derive(Clone, Debug, PartialEq, Eq)]
pub struct OrdersPage {
    pub data: Vec<OrderSummary>,
}

/// Where the account walk-through stands: which reply it is waiting for,
/// or how it ended.
#[derive(Clone, Copy, Debug, PartialEq, Eq, Structural)]
pub enum AccountsState {
    AwaitingBalance,
    AwaitingDeposits,
    AwaitingWithdrawals,
    AwaitingOpenOrders,
    AwaitingOrder,
    Done,
    Aborted,
}

/// What the driver reports back: the reply to the call last issued, or
/// that the call failed.  Only the open-order reply carries data the
/// walk-through goes on to read.
#[derive(Clone, Debug, PartialEq, Eq)]
pub enum AccountsEvent {
    CallFailed,
    BalanceReceived,
    DepositRecordsReceived,
    WithdrawalRecordsReceived,
    OpenOrdersReceived { page: OrdersPage },
    OrderReceived,
}

/// A remote call for the driver to perform.
#[derive(Clone, Debug, PartialEq, Eq)]
pub enum AccountsCall {
    GetAccountBalance,
    GetDepositRecords,
    GetWithdrawalRecords,
    GetOpenOrders,
    GetOrder { order_id: String },
}

/// A state from which no further call is ever issued.
pub open spec fn is_terminal(state: AccountsState) -> bool {
    state is Done || state is Aborted
}

/// The id heading a page of open orders, when the page is not empty.
pub open spec fn spec_first_order_id(page: OrdersPage) -> Option<Seq<char>> {
    if page.data@.len() > 0 {
        Some(page.data@[0].order_id@)
    } else {
        None
    }
}

/// The transition relation of the walk-through.  A failure or a reply
/// that does not answer the awaited call aborts it; an empty open-order
/// page aborts it too, there being no order left to query; otherwise
/// each reply leads to the next documented call.
pub open spec fn spec_advance(state: AccountsState, event: AccountsEvent) -> (AccountsState, Option<
    AccountsCall,
>) {
    match (state, event) {
        (AccountsState::AwaitingBalance, AccountsEvent::BalanceReceived) => (
            AccountsState::AwaitingDeposits,
            Some(AccountsCall::GetDepositRecords),
        ),
        (AccountsState::AwaitingDeposits, AccountsEvent::DepositRecordsReceived) => (
            AccountsState::AwaitingWithdrawals,
            Some(AccountsCall::GetWithdrawalRecords),
        ),
        (AccountsState::AwaitingWithdrawals, AccountsEvent::WithdrawalRecordsReceived) => (
            AccountsState::AwaitingOpenOrders,
            Some(AccountsCall::GetOpenOrders),
        ),
        (AccountsState::AwaitingOpenOrders, AccountsEvent::OpenOrdersReceived { page }) => if page.data@.len()
            > 0 {
            (
                AccountsState::AwaitingOrder,
                Some(AccountsCall::GetOrder { order_id: page.data@[0].order_id }),
            )
        } else {
            (AccountsState::Aborted, None)
        },
        (AccountsState::AwaitingOrder, AccountsEvent::OrderReceived) => (
            AccountsState::Done,
            None,
        ),
        (AccountsState::Done, _) => (AccountsState::Done, None),
        (AccountsState::Aborted, _) => (AccountsState::Aborted, None),
        _ => (AccountsState::Aborted, None),
    }
}

/// Begin the walk-through: the first documented call is the balance
/// query, and the machine then awaits its reply.
pub fn start() -> (r: (AccountsState, AccountsCall))
    ensures
        r.0 == AccountsState::AwaitingBalance,
        r.1 == AccountsCall::GetAccountBalance,
{
    (AccountsState::AwaitingBalance, AccountsCall::GetAccountBalance)
}

/// Feed one event to the walk-through; the result is the next state and,
/// when one is owed, the next call to perform.  The order queried last
/// is exactly the one heading the open-order page received before.
pub fn advance(state: AccountsState, event: AccountsEvent) -> (r: (
    AccountsState,
    Option<AccountsCall>,
))
    ensures
        r == spec_advance(state, event),
{
    match (state, event) {
        (AccountsState::AwaitingBalance, AccountsEvent::BalanceReceived) => (
            AccountsState::AwaitingDeposits,
            Some(AccountsCall::GetDepositRecords),
        ),
        (AccountsState::AwaitingDeposits, AccountsEvent::DepositRecordsReceived) => (
            AccountsState::AwaitingWithdrawals,
            Some(AccountsCall::GetWithdrawalRecords),
        ),
        (AccountsState::AwaitingWithdrawals, AccountsEvent::WithdrawalRecordsReceived) => (
            AccountsState::AwaitingOpenOrders,
            Some(AccountsCall::GetOpenOrders),
        ),
        (AccountsState::AwaitingOpenOrders, AccountsEvent::OpenOrdersReceived { page }) => {
            let mut data = page.data;
            if data.len() > 0 {
                let first = data.remove(0);
                (
                    AccountsState::AwaitingOrder,
                    Some(AccountsCall::GetOrder { order_id: first.order_id }),
                )
            } else {
                (AccountsState::Aborted, None)
            }
        },
        (AccountsState::AwaitingOrder, AccountsEvent::OrderReceived) => (
            AccountsState::Done,
            None,
        ),
        (AccountsState::Done, _) => (AccountsState::Done, None),
        (AccountsState::Aborted, _) => (AccountsState::Aborted, None),
        _ => (AccountsState::Aborted, None),
    }
}

/// Position of a state in the documented sequence: the rank of the call
/// it awaits, then the two ways of ending.
pub open spec fn state_rank(state: AccountsState) -> nat {
    match state {
        AccountsState::AwaitingBalance => 1,
        AccountsState::AwaitingDeposits => 2,
        AccountsState::AwaitingWithdrawals => 3,
        AccountsState::AwaitingOpenOrders => 4,
        AccountsState::AwaitingOrder => 5,
        AccountsState::Done => 6,
        AccountsState::Aborted => 7,
    }
}

/// Position of a call in the documented sequence.
pub open spec fn call_rank(call: AccountsCall) -> nat {
    match call {
        AccountsCall::GetAccountBalance => 1,
        AccountsCall::GetDepositRecords => 2,
        AccountsCall::GetWithdrawalRecords => 3,
        AccountsCall::GetOpenOrders => 4,
        AccountsCall::GetOrder { .. } => 5,
    }
}

/// All calls a walk-through issues from `state` while consuming `events`,
/// in the order it issues them.
pub open spec fn spec_run(state: AccountsState, events: Seq<AccountsEvent>) -> Seq<AccountsCall>
    decreases events.len(),
{
    if events.len() == 0 {
        Seq::empty()
    } else {
        let stepped = spec_advance(state, events[0]);
        match stepped.1 {
            Option::Some(call) => seq![call] + spec_run(stepped.0, events.drop_first()),
            Option::None => spec_run(stepped.0, events.drop_first()),
        }
    }
}

/// `calls` are exactly the documented calls of ranks `rank + 1`,
/// `rank + 2`, ... in that order: none skipped, none repeated.
pub open spec fn consecutive_after(rank: nat, calls: Seq<AccountsCall>) -> bool
    decreases calls.len(),
{
    calls.len() == 0 || (call_rank(calls[0]) == rank + 1 && consecutive_after(
        rank + 1,
        calls.drop_first(),
    ))
}

/// A failed call drives any live walk-through to the aborted state and
/// issues nothing more: every error propagates to termination.
pub proof fn lemma_failure_aborts(state: AccountsState)
    requires
        !is_terminal(state),
    ensures
        spec_advance(state, AccountsEvent::CallFailed) == (
            AccountsState::Aborted,
            None::<AccountsCall>,
        ),
{
}

/// A terminal state absorbs every event, and every transition from a live
/// state strictly advances the walk-through, so it ends after at most as
/// many events as there are documented calls.
pub proof fn lemma_progress(state: AccountsState, event: AccountsEvent)
    ensures
        is_terminal(state) ==> spec_advance(state, event) == (state, None::<AccountsCall>),
        !is_terminal(state) ==> state_rank(spec_advance(state, event).0) > state_rank(state),
{
}

/// Whenever a transition issues a call, that call is the next documented
/// one, and the machine moves to the state that awaits its reply.
pub proof fn lemma_emission(state: AccountsState, event: AccountsEvent)
    ensures
        spec_advance(state, event).1 matches Some(call) ==> call_rank(call) == state_rank(state)
            + 1 && state_rank(spec_advance(state, event).0) == state_rank(state) + 1,
{
}

/// The single-order query is issued only for the id that heads a
/// non-empty open-order page handed in by the driver.
pub proof fn lemma_order_id_from_page(state: AccountsState, event: AccountsEvent)
    ensures
        spec_advance(state, event).1 matches Some(AccountsCall::GetOrder { order_id }) ==> {
            &&& state is AwaitingOpenOrders
            &&& event matches AccountsEvent::OpenOrdersReceived { page }
            &&& spec_first_order_id(page) == Some(order_id@)
        },
{
}

/// Once a walk-through has ended, no run from it issues any call.
pub proof fn lemma_terminal_run_empty(state: AccountsState, events: Seq<AccountsEvent>)
    requires
        is_terminal(state),
    ensures
        spec_run(state, events) == Seq::<AccountsCall>::empty(),
    decreases events.len(),
{
    if events.len() > 0 {
        lemma_progress(state, events[0]);
        lemma_terminal_run_empty(state, events.drop_first());
    }
}

/// Whatever events arrive, the calls issued from any state are a
/// consecutive block of the documented sequence, beginning right after
/// that state's own position.
pub proof fn lemma_run_in_documented_order(state: AccountsState, events: Seq<AccountsEvent>)
    ensures
        consecutive_after(state_rank(state), spec_run(state, events)),
    decreases events.len(),
{
    if events.len() > 0 {
        let stepped = spec_advance(state, events[0]);
        lemma_run_in_documented_order(stepped.0, events.drop_first());
        match stepped.1 {
            Option::Some(call) => {
                lemma_emission(state, events[0]);
                let rest = spec_run(stepped.0, events.drop_first());
                assert((seq![call] + rest)[0] == call);
                assert((seq![call] + rest).drop_first() =~= rest);
            },
            Option::None => {
                if is_terminal(stepped.0) {
                    lemma_terminal_run_empty(stepped.0, events.drop_first());
                }
            },
        }
    }
}

/// A full walk-through from `start` issues a prefix of the documented
/// call sequence: balance, deposit records, withdrawal records, open
/// orders, single order, in that order and each at most once.
pub proof fn lemma_full_trace_in_documented_order(events: Seq<AccountsEvent>)
    ensures
        consecutive_after(
            0,
            seq![AccountsCall::GetAccountBalance] + spec_run(
                AccountsState::AwaitingBalance,
                events,
            ),
        ),
{
    lemma_run_in_documented_order(AccountsState::AwaitingBalance, events);
    let rest = spec_run(AccountsState::AwaitingBalance, events);
    assert((seq![AccountsCall::GetAccountBalance] + rest)[0] == AccountsCall::GetAccountBalance);
    assert((seq![AccountsCall::GetAccountBalance] + rest).drop_first() =~= rest);
}

} // verus!
