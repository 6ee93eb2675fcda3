//! Accounting core of a single-asset money-market lending pool.
//!
//! A pool accepts one underlying asset, issues claim tokens against
//! deposits, tracks per-account debt, accrues compounding interest over
//! time, and resolves undercollateralized positions through liquidation
//! and collateral seizure.
//!
//! The pool's external collaborators (the risk/policy authority, the
//! underlying token ledger, the interest-rate model, and peer pools) are
//! consulted through plain values: approvals come from a [`controller`]
//! value, balances, rates and timestamps enter as parameters, and value
//! movements leave as instructions for the host to carry out.

pub mod controller;
pub mod exp;
pub mod interest;
pub mod pool;
pub mod psp22;
pub mod types;
