//! Authentication core for ledger transactions: a canonical byte encoding of a
//! transaction and the Ed25519 signing and verification operations that bind a
//! transaction to its originator.

pub mod auth;
pub mod crypto;
pub mod transaction;
