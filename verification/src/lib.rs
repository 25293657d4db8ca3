//! A staking ledger for non-fungible tokens with pro-rata airdrop
//! distribution.
//!
//! Holders lock items of one configured collection for a configured duration
//! and in return receive an even, floor-divided share of every reward amount
//! the owner announces while their lock is still running.  The ledger keeps
//! one entry per account, each entry holding the account's staked-item
//! records and its lifetime-earned total.
//!
//! The state itself is a plain value ([`state::State`]); every transition is
//! a function from the old state and the request's data to the new state and
//! the outbound transfers it asks for.  Host concerns — persistence,
//! message encoding, balance queries — stay outside and hand the transitions
//! plain values.
//!
//! Two policy decisions this ledger fixes deliberately: deposits and lock
//! renewals are accepted only while an airdrop epoch is active (opened by
//! the owner, closed by each announcement), and a record counts as eligible
//! for an airdrop only while its lock runs *and* its recorded collection is
//! the one currently configured — both when the population is counted and
//! when the shares are applied.  The staked counter falls on withdrawal, so
//! that it equals the number of records held at every observation point.

pub mod contract;
pub mod error;
pub mod laws;
pub mod msg;
pub mod state;
pub mod util;
