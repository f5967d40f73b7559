//! A proxy between depositors and a liquidity pool: it sequences the token
//! transfer, allowance and pool deposit calls of a deposit across
//! asynchronous replies, and computes discounted reward bonds.
//!
//! - `types`: assets, settings, continuations, bonds and outbound calls.
//! - `reward`: the discounted reward of a deposit.
//! - `ledger`: correlation ids and the continuations pending on them.
//! - `state`: the contract's durable state, its settings and queries.
//! - `engine`: the entry operations and the steps of a deposit chain.
//! - `reply`: the outcome dispatcher that resumes pending continuations.
//! - `wasm`: outbound calls as the host executes them.
pub mod engine;
pub mod ledger;
pub mod reply;
pub mod reward;
pub mod state;
pub mod types;
pub mod wasm;
