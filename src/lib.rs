//! Hash time-locked contract (HTLC) for atomic swaps of a fungible token,
//! with relayer-driven completion of swaps that started on a foreign chain.
//!
//! The swap state machine, the lock registry and the relayer allow-list live
//! here as verified code. Everything the host platform does (reading the
//! caller and the clock, moving tokens) stays with the caller: operations take
//! the caller and the current time as values and hand back the ledger call to
//! perform.

pub mod chain;
pub mod digest;
pub mod lock;
pub mod evm;
pub mod htlc;
pub mod laws;
