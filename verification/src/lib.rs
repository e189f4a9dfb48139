//! The logic core of a two-sided cross-chain asset bridge: a validator
//! registry, an asset registry with per-asset daily spending limits, a ledger
//! of pending swap approvals that releases funds on quorum, and the
//! distribution of fee rewards among validators, together with the fungible
//! token ledger the bridge mints to and burns from.
//!
//! Every operation takes what the host chain knows (the caller, the
//! current time, whether a native payment went through) as plain values and
//! hands back what the host has to do (events to emit, payments to make).

pub mod account;
pub mod tables;
pub mod codec;
pub mod erc20token;
pub mod state;
pub mod bridge;
pub mod laws;
