//! Decision engine for a ledger-transaction hook that sponsors fees for
//! transactions denominated in the LKS currency.
//!
//! The host runtime invokes the hook once per transaction and exposes the
//! transaction's fields through numbered slots. This crate holds the whole
//! decision logic as verified functions over the plain values read from
//! those slots: transaction-type dispatch, the fee-read check, currency
//! detection, and the resulting verdict and fee mutation. The host calls
//! themselves (slot reads, slot writes, accept/reject signals, traces)
//! stay outside the crate; callers hand the slot contents in and perform
//! the returned [`outcome::HookOutcome`] against the host.

pub mod detect;
pub mod dispatch;
pub mod handlers;
pub mod laws;
pub mod outcome;
