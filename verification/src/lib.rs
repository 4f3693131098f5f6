//! A minimal keyless authority model for a fungible-token mint.
//!
//! A single authority address is derived deterministically from a fixed
//! label and a program identity; it owns no secret key. That authority is
//! bound, at setup time, to exactly one mint resource and one holding
//! account, and every privileged supply increase authorizes itself by
//! reconstructing the derivation rather than by a signature.

pub mod authority;
pub mod ledger;
pub mod program;
