//! Verify mode: a candidate password against a stored verifier.
//!
//! The master key and the verifier are recomputed from the candidate, one
//! after the other. Only when the recomputed verifier equals the stored one
//! is a protection key derived; on a mismatch none is computed.
//!
//! The protection key of a match is derived from the candidate password
//! itself, under the third salt. Hash mode derives its protection key from
//! the master key. The two are different inputs to the same hash, so the key
//! returned here is in general not the key that hash mode emitted for the
//! same password and salts.

use vstd::prelude::*;
use vstd::string::StringExecFns;
use crate::chain::verifier_hash;
use crate::compare::digests_equal;
use crate::kdf::derive_dpk;
use crate::kdf::digest;
use crate::kdf::generate_hash_mk;
use crate::kdf::KdfError;
use crate::kdf::KdfProfile;

verus! {

/// How a verification ended.
#[derive(Clone, Debug, PartialEq, Eq)]
pub enum Verification {
    /// The candidate gives the stored verifier; `dpk` is the protection key
    /// derived from the candidate.
    Match { dpk: String },
    /// The candidate gives another verifier. No protection key was derived.
    Mismatch,
}

/// A verification as mathematical values.
pub enum Verdict {
    Match { dpk: Seq<char> },
    Mismatch,
}

impl View for Verification {
    type V = Verdict;

    open spec fn view(&self) -> Verdict {
        match self {
            Verification::Match { dpk } => Verdict::Match { dpk: dpk@ },
            Verification::Mismatch => Verdict::Mismatch,
        }
    }
}

/// The protection key of a match: the digest of the candidate password
/// under the third salt and the Protection profile.
pub open spec fn candidate_protection_key(password: Seq<u8>, salt3: Seq<u8>) -> Option<Seq<char>> {
    digest(password, salt3, KdfProfile::Protection)
}

/// What a recomputed verifier decides: a mismatch where it differs from the
/// stored one, else a match with the candidate's protection key, or `None`
/// where that key's derivation is refused.
pub open spec fn verdict_of(
    recomputed: Seq<char>,
    phash: Seq<char>,
    password: Seq<u8>,
    salt3: Seq<u8>,
) -> Option<Verdict> {
    if recomputed == phash {
        match candidate_protection_key(password, salt3) {
            Some(dpk) => Some(Verdict::Match { dpk }),
            None => None,
        }
    } else {
        Some(Verdict::Mismatch)
    }
}

/// The verdict on a candidate password; `None` where a derivation that the
/// verdict needs is refused.
pub open spec fn verification(
    password: Seq<u8>,
    salt1: Seq<u8>,
    salt2: Seq<u8>,
    salt3: Seq<u8>,
    phash: Seq<char>,
) -> Option<Verdict> {
    match verifier_hash(password, salt1, salt2) {
        Some(recomputed) => verdict_of(recomputed, phash, password, salt3),
        None => None,
    }
}

/// What a run of the verification returned, as mathematical values.
pub open spec fn verified(r: Result<Verification, KdfError>) -> Option<Verdict> {
    match r {
        Ok(v) => Some(v@),
        Err(_) => None,
    }
}

/// Decides on a recomputed verifier. The two verifiers are compared without
/// an early exit. The protection key is derived after the comparison, and
/// only where it found them equal.
pub fn conclude(hash_mk: &str, phash: &str, password: &[u8], salt3: &[u8]) -> (r: Result<
    Verification,
    KdfError,
>)
    ensures
        verified(r) == verdict_of(hash_mk@, phash@, password@, salt3@),
{
    if digests_equal(hash_mk, phash) {
        match derive_dpk(password, salt3) {
            Ok(dpk) => Ok(Verification::Match { dpk }),
            Err(e) => Err(e),
        }
    } else {
        Ok(Verification::Mismatch)
    }
}

/// Verify mode: recomputes master key and verifier from the candidate and
/// decides on the result.
pub fn verify_password(
    password: &Vec<u8>,
    salt1: &[u8],
    salt2: &[u8],
    salt3: &[u8],
    phash: &str,
) -> (r: Result<Verification, KdfError>)
    ensures
        verified(r) == verification(password@, salt1@, salt2@, salt3@, phash@),
{
    let mk = match generate_hash_mk(password.as_slice(), salt1) {
        Ok(mk) => mk,
        Err(e) => {
            return Err(e);
        },
    };
    let hash_mk = match generate_hash_mk(mk.as_str().as_bytes(), salt2) {
        Ok(hash_mk) => hash_mk,
        Err(e) => {
            return Err(e);
        },
    };
    conclude(hash_mk.as_str(), phash, password.as_slice(), salt3)
}

impl Verification {
    /// The lines that verify mode prints: `Match` and the protection key,
    /// or `Mismatch` alone.
    pub fn lines(&self) -> (r: Vec<String>)
        ensures
            match self {
                Verification::Match { dpk } => r@.len() == 2 && r@[0]@ == "Match"@ && r@[1]@
                    == dpk@,
                Verification::Mismatch => r@.len() == 1 && r@[0]@ == "Mismatch"@,
            },
    {
        let mut out: Vec<String> = Vec::new();
        match self {
            Verification::Match { dpk } => {
                out.push(String::from_str("Match"));
                out.push(dpk.clone());
            },
            Verification::Mismatch => {
                out.push(String::from_str("Mismatch"));
            },
        }
        out
    }
}

} // verus!
