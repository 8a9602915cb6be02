//! A capped, phase-gated fundraising sale.
//!
//! Participants contribute a base currency during a bounded window, funds are
//! held in custody, a surplus may be skimmed to a safeguarding reserve, and
//! afterward the raised funds go to a beneficiary while contributors who
//! stayed in receive a pro-rata share of a fixed token pool with tiered
//! bonuses; contributors who cancelled are refunded at claim time.
//!
//! The library is the accounting core alone: every operation takes the host
//! facts it needs (the clock reading, the custody balance, the minimum
//! reserve) as plain values and reports the currency or token movement it
//! requires as a plain value. Performing those movements, and resolving which
//! account a caller is, is the host's business.

pub mod arith;
pub mod distribution;
pub mod errors;
pub mod laws;
pub mod ops;
pub mod sale;
pub mod state;
