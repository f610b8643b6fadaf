//! Client-side logic for confidential token operations.
//!
//! - `crypto`: the two encryption keys that belong to a signing key, and
//!   the balance codec over them.
//! - `account`: decoding of token accounts, mints and the confidential
//!   state of an account.
//! - `proofs`: zero-knowledge proof data and the instructions that have it
//!   verified.
//! - `instruction`: instructions as plain values, and the constructors of
//!   those that the operations emit.
//! - `transaction`: transaction plans, whose acting instruction refers to
//!   its proofs by relative position, and the cross-check of those
//!   positions.
//! - `signing`: compiling and signing a plan.
//! - `commands`: the operations, each planned from what was read from the
//!   chain.
//! - `utils`, `bytes`, `error`: amounts, byte strings and failure kinds.
//!
//! Nothing here reads from or writes to the network or the disk: callers
//! read accounts, hand the bytes in, and submit what comes back.
pub mod account;
pub mod bytes;
pub mod commands;
pub mod crypto;
pub mod error;
pub mod instruction;
pub mod proofs;
pub mod signing;
pub mod transaction;
pub mod utils;
