//! Deposit ledger and vote-weight engine of a token-based voter registry.
//!
//! Every deposit slot of a voter carries a lockup schedule; the registrar
//! holds the per-mint scaling parameters that turn deposited and locked
//! amounts into voting power. The ledger operations in [`instructions`]
//! are the only mutators of that state and keep its accounting invariants.
pub mod deposit_entry;
pub mod error;
pub mod instructions;
pub mod lockup;
pub mod pubkey;
pub mod registrar;
pub mod voter;
pub mod voting_mint_config;
