//! Orchestration core of a payment-channel node: payment bookkeeping, funding
//! and sweep negotiation with the wallet, chain-tip tracking and the event
//! dispatch cycle, as verified state machines over plain values.

pub mod bytes;
pub mod chain;
pub mod dispatcher;
pub mod forwarding;
pub mod funding;
pub mod payments;
pub mod protocol;
pub mod startup;
pub mod store;
pub mod sweeper;
pub mod trusted;
