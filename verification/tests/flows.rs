use trade_flows::accounts_flow;
use trade_flows::market_flow;
use trade_flows::order_flow;

use trade_flows::accounts_flow::AccountsCall;
use trade_flows::accounts_flow::AccountsEvent;
use trade_flows::accounts_flow::AccountsState;
use trade_flows::accounts_flow::OrderSummary;
use trade_flows::accounts_flow::OrdersPage;
use trade_flows::market_flow::MarketCall;
use trade_flows::market_flow::MarketEvent;
use trade_flows::market_flow::MarketState;
use trade_flows::order_flow::OrderCall;
use trade_flows::order_flow::OrderEvent;
use trade_flows::order_flow::OrderKind;
use trade_flows::order_flow::OrderSide;
use trade_flows::order_flow::OrderState;

fn page_of(ids: &[&str]) -> OrdersPage {
    OrdersPage {
        data: ids
            .iter()
            .map(|id| OrderSummary { order_id: (*id).to_string() })
            .collect(),
    }
}

#[test]
fn market_start_issues_price_query() {
    let (state, call) = market_flow::start();
    assert_eq!(state, MarketState::AwaitingMarketPrice);
    assert_eq!(call, MarketCall::GetMarketPrice);
}

#[test]
fn market_happy_path_runs_both_calls_in_order() {
    let (state, _) = market_flow::start();
    let (state, call) =
        market_flow::advance(state, MarketEvent::MarketPriceReceived { now_secs: 1_800_000_000 });
    assert_eq!(state, MarketState::AwaitingAggregatedPrice);
    assert_eq!(
        call,
        Some(MarketCall::GetAggregatedPrice {
            start_secs: 1_732_982_400,
            end_secs: 1_800_000_000,
        })
    );
    let (state, call) = market_flow::advance(state, MarketEvent::AggregatedPriceReceived);
    assert_eq!(state, MarketState::Done);
    assert_eq!(call, None);
}

#[test]
fn market_failed_call_aborts_and_stays_aborted() {
    let (state, _) = market_flow::start();
    let (state, call) = market_flow::advance(state, MarketEvent::CallFailed);
    assert_eq!(state, MarketState::Aborted);
    assert_eq!(call, None);
    let (state, call) = market_flow::advance(state, MarketEvent::AggregatedPriceReceived);
    assert_eq!(state, MarketState::Aborted);
    assert_eq!(call, None);
}

#[test]
fn market_clock_reading_too_large_aborts() {
    let (state, _) = market_flow::start();
    let (state, call) =
        market_flow::advance(state, MarketEvent::MarketPriceReceived { now_secs: u64::MAX });
    assert_eq!(state, MarketState::Aborted);
    assert_eq!(call, None);
}

#[test]
fn market_mismatched_reply_aborts() {
    let (state, _) = market_flow::start();
    let (state, call) = market_flow::advance(state, MarketEvent::AggregatedPriceReceived);
    assert_eq!(state, MarketState::Aborted);
    assert_eq!(call, None);
}

#[test]
fn market_symbol_is_the_documented_pair() {
    assert_eq!(market_flow::trading_symbol(), "ADAUSDM");
    assert_eq!(market_flow::AGGREGATION_START_SECS, 1_732_982_400);
}

#[test]
fn accounts_happy_path_runs_all_five_calls_in_order() {
    let mut calls: Vec<AccountsCall> = Vec::new();
    let (state, first) = accounts_flow::start();
    calls.push(first);
    let events = [
        AccountsEvent::BalanceReceived,
        AccountsEvent::DepositRecordsReceived,
        AccountsEvent::WithdrawalRecordsReceived,
        AccountsEvent::OpenOrdersReceived { page: page_of(&["ord-1", "ord-2"]) },
        AccountsEvent::OrderReceived,
    ];
    let mut state = state;
    for event in events {
        let (next, call) = accounts_flow::advance(state, event);
        if let Some(call) = call {
            calls.push(call);
        }
        state = next;
    }
    assert_eq!(state, AccountsState::Done);
    assert_eq!(
        calls,
        vec![
            AccountsCall::GetAccountBalance,
            AccountsCall::GetDepositRecords,
            AccountsCall::GetWithdrawalRecords,
            AccountsCall::GetOpenOrders,
            AccountsCall::GetOrder { order_id: "ord-1".to_string() },
        ]
    );
}

#[test]
fn accounts_single_order_query_names_the_heading_id() {
    let (state, call) = accounts_flow::advance(
        AccountsState::AwaitingOpenOrders,
        AccountsEvent::OpenOrdersReceived { page: page_of(&["head", "tail"]) },
    );
    assert_eq!(state, AccountsState::AwaitingOrder);
    assert_eq!(call, Some(AccountsCall::GetOrder { order_id: "head".to_string() }));
}

#[test]
fn accounts_empty_order_page_aborts() {
    let (state, call) = accounts_flow::advance(
        AccountsState::AwaitingOpenOrders,
        AccountsEvent::OpenOrdersReceived { page: page_of(&[]) },
    );
    assert_eq!(state, AccountsState::Aborted);
    assert_eq!(call, None);
}

#[test]
fn accounts_failed_call_aborts_and_stays_aborted() {
    let (state, call) =
        accounts_flow::advance(AccountsState::AwaitingWithdrawals, AccountsEvent::CallFailed);
    assert_eq!(state, AccountsState::Aborted);
    assert_eq!(call, None);
    let (state, call) = accounts_flow::advance(state, AccountsEvent::BalanceReceived);
    assert_eq!(state, AccountsState::Aborted);
    assert_eq!(call, None);
}

#[test]
fn accounts_mismatched_reply_aborts() {
    let (state, call) =
        accounts_flow::advance(AccountsState::AwaitingBalance, AccountsEvent::OrderReceived);
    assert_eq!(state, AccountsState::Aborted);
    assert_eq!(call, None);
}

#[test]
fn accounts_done_state_absorbs_events() {
    let (state, call) =
        accounts_flow::advance(AccountsState::Done, AccountsEvent::BalanceReceived);
    assert_eq!(state, AccountsState::Done);
    assert_eq!(call, None);
}

#[test]
fn order_start_loads_the_operation_key() {
    let (state, call) = order_flow::start();
    assert_eq!(state, OrderState::AwaitingOperationKey);
    assert_eq!(call, OrderCall::LoadOperationKey);
}

#[test]
fn order_happy_path_places_then_cancels_its_own_order() {
    let (state, _) = order_flow::start();
    let (state, call) = order_flow::advance(state, OrderEvent::OperationKeyLoaded);
    assert_eq!(state, OrderState::AwaitingPostOrder);
    assert_eq!(
        call,
        Some(OrderCall::PostOrder {
            side: OrderSide::Sell,
            kind: OrderKind::Limit,
            quantity: 100,
            price: Some(51),
            post_only: false,
        })
    );
    let (state, call) =
        order_flow::advance(state, OrderEvent::OrderPosted { order_id: "abc-123".to_string() });
    assert_eq!(state, OrderState::AwaitingCancelOrder);
    assert_eq!(call, Some(OrderCall::CancelOrder { order_id: "abc-123".to_string() }));
    let (state, call) = order_flow::advance(state, OrderEvent::OrderCancelled);
    assert_eq!(state, OrderState::Done);
    assert_eq!(call, None);
}

#[test]
fn order_failed_placement_issues_no_cancellation() {
    let (state, _) = order_flow::start();
    let (state, _) = order_flow::advance(state, OrderEvent::OperationKeyLoaded);
    let (state, call) = order_flow::advance(state, OrderEvent::CallFailed);
    assert_eq!(state, OrderState::Aborted);
    assert_eq!(call, None);
    let (state, call) = order_flow::advance(state, OrderEvent::OrderCancelled);
    assert_eq!(state, OrderState::Aborted);
    assert_eq!(call, None);
}

#[test]
fn order_failed_key_load_places_no_order() {
    let (state, _) = order_flow::start();
    let (state, call) = order_flow::advance(state, OrderEvent::CallFailed);
    assert_eq!(state, OrderState::Aborted);
    assert_eq!(call, None);
}

#[test]
fn order_constants_match_the_documented_order() {
    assert_eq!(order_flow::ORDER_QUANTITY, 100);
    assert_eq!(order_flow::ORDER_PRICE, 51);
}
