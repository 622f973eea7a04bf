//! Ledger-resident state machines: a cross-chain escrow bridge and a
//! custodial wallet with a re-entrancy guard.
pub mod address;
pub mod assoc;
pub mod bridge;
pub mod digest;
pub mod wallet;
