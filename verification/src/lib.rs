//! Verified core of the magics protocol: session-key seals, the agent
//! registry, the per-agent token ledger with its cast entry point, and the
//! reference yield strategy.
//!
//! Every instruction of the on-chain programs is expressed here as a
//! function from plain account state (and the inputs the runtime supplies,
//! such as the clock) to the next state and the event it emits. The
//! surrounding runtime work — reading the clock, loading accounts, token
//! transfers and cross-program calls — stays outside this crate.

pub mod bytes;
pub mod crypto;
pub mod domain;
pub mod ed25519;
pub mod error;
pub mod seal;
pub mod vault;
pub mod registry;
pub mod router;
pub mod mock_yield;
pub mod passive_yield;
