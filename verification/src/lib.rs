//! A two-party token swap held in escrow on an account-addressed ledger.
//!
//! A maker locks a quantity of one asset and names the quantity of another
//! asset, and the account, that must be paid for it. A taker who pays exactly
//! that receives the locked asset. The ledger itself, the token service and the
//! address derivation are collaborators: this crate decides, step by step, what
//! is asked of them, and they carry it out between the steps.
//!
//! A transition is a sequence of legs. For each leg the caller hands in the
//! accounts as they stand and the stage reached; the transition answers with
//! the one action to perform and the stage that follows, or with a refusal.

pub mod authority;
pub mod error;
pub mod identity;
pub mod instructions;
pub mod ledger;
pub mod processor;
pub mod state;
pub mod system;
pub mod token;
pub mod validate;
