//! A stake pool on a shared ledger.
//!
//! A pool is a record of staking policy under an authority. For every asset
//! staked under a pool the program keeps one entry and issues one receipt
//! token: a mint without decimals, whose single unit the entry holds and
//! whose minting and freezing the pool controls.
//!
//! * [`address`]: addresses and their derivation from key fields.
//! * [`state`]: the records of the program.
//! * [`ledger`]: the records of the program by address.
//! * [`calls`]: the calls into collaborating programs.
//! * [`uri`]: the metadata link of a receipt token.
//! * [`instructions`]: the three operations.
//! * [`error`]: the ways in which an operation is rejected.

pub mod address;
pub mod calls;
pub mod error;
pub mod instructions;
pub mod ledger;
pub mod state;
pub mod uri;
