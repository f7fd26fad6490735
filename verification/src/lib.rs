//! State machines for three straight-line walk-throughs of a trading
//! platform: an account inspection, a market-data inspection, and an
//! order round trip.  Each walk-through is a fixed sequence of remote
//! calls; the machines here decide which call comes next and what to do
//! with each reply, while the caller performs the calls themselves.

pub mod accounts_flow;
pub mod market_flow;
pub mod order_flow;
