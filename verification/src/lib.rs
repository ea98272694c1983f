//! A small verified ledger that accepts coffee-style tips.
//!
//! The library is the state-transition core of a "buy me a coffee" contract:
//! it validates an incoming payment or withdrawal, updates two 256-bit
//! counters, and enforces that only the owner bound at initialization may
//! withdraw. The host environment (which delivers the caller identity and the
//! attached value, and which actually moves currency) lives outside this
//! crate and hands the core plain values.

pub mod ledger;
pub mod u256;
