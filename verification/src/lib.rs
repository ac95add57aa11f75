//! Verified state transitions of four token contracts: milestone escrow,
//! vesting schedules, an M-of-N multisig wallet and DAO voting.
//!
//! Each contract keeps its records in ledger storage and moves tokens through
//! a token contract. The functions here decide: they take the stored record
//! and the call's arguments, and give back the new record together with the
//! token payments to make, or the error that rejects the call.

pub mod address;
pub mod arith;
pub mod counter;
pub mod escrow;
pub mod vesting;
pub mod multisig;
pub mod dao_voting;
