//! A custodial vault that exchanges native currency for a program-minted
//! token at a fixed 100:1 rate, and lets a recorded authority withdraw the
//! accumulated deposits.
//!
//! The heart of the design is authority delegation: at initialization the
//! mint's authority is handed from the human initializer to a key-less
//! program-derived identity, so that from then on only the program itself
//! can mint, and every deposit is provably matched by a mint of exactly
//! one hundred times its amount.

pub mod identity;
pub mod laws;
pub mod ledger;
pub mod pda;
pub mod vault;

pub use identity::Identity;
