//! Password-based derivation of a master key, a storable verifier and a
//! protection key, and the check of a candidate password against a stored
//! verifier.

pub mod chain;
pub mod compare;
pub mod field;
pub mod hex;
pub mod input;
pub mod kdf;
pub mod laws;
pub mod parallel;
pub mod salt;
pub mod usage;
pub mod verification;
