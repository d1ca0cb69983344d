//! What holds between hash mode and verify mode.

use vstd::prelude::*;
use vstd::utf8::encode_utf8;
use crate::chain::hash_record;
use crate::chain::master_key;
use crate::chain::protection_key;
use crate::chain::verifier_hash;
use crate::chain::HashRecordView;
use crate::kdf::digest;
use crate::kdf::KdfProfile;
use crate::verification::candidate_protection_key;
use crate::verification::verification;
use crate::verification::Verdict;

verus! {

/// A derivation is a function of input, salt and profile: two digests of
/// the same three are the same text.
pub proof fn lemma_derivation_is_deterministic(
    input: Seq<u8>,
    salt: Seq<u8>,
    profile: KdfProfile,
    first: Seq<char>,
    second: Seq<char>,
)
    requires
        digest(input, salt, profile) == Some(first),
        digest(input, salt, profile) == Some(second),
    ensures
        first == second,
{
}

/// Verifying the password that was hashed, with the salts and the verifier
/// of its record, never ends in a mismatch: it is a match wherever the
/// candidate's protection key can be derived, and the key of that match
/// is the digest of the password itself under the third salt.
pub proof fn lemma_hash_then_verify_matches(
    password: Seq<u8>,
    salt1: Seq<u8>,
    salt2: Seq<u8>,
    salt3: Seq<u8>,
    record: HashRecordView,
)
    requires
        hash_record(password, salt1, salt2, salt3) == Some(record),
    ensures
        verification(password, record.salt1, record.salt2, record.salt3, record.hash_mk) != Some(
            Verdict::Mismatch,
        ),
        verification(password, record.salt1, record.salt2, record.salt3, record.hash_mk) == (
        match candidate_protection_key(password, salt3) {
            Some(dpk) => Some(Verdict::Match { dpk }),
            None => None,
        }),
{
}

/// The protection key of such a match is the one in the record wherever
/// the password and its master key have the same digest under the third
/// salt and the Protection profile, and only there.
pub proof fn lemma_hash_then_verify_same_key(
    password: Seq<u8>,
    salt1: Seq<u8>,
    salt2: Seq<u8>,
    salt3: Seq<u8>,
    record: HashRecordView,
)
    requires
        hash_record(password, salt1, salt2, salt3) == Some(record),
    ensures
        verification(password, record.salt1, record.salt2, record.salt3, record.hash_mk) == Some(
            Verdict::Match { dpk: record.dpk },
        ) <==> candidate_protection_key(password, salt3) == protection_key(
            password,
            salt1,
            salt3,
        ),
{
}

/// A candidate whose verifier differs from the stored one is a mismatch,
/// which carries no protection key; and a mismatch comes from no other
/// candidate.
pub proof fn lemma_other_verifier_mismatches(
    password: Seq<u8>,
    candidate: Seq<u8>,
    salt1: Seq<u8>,
    salt2: Seq<u8>,
    salt3: Seq<u8>,
    stored: Seq<char>,
)
    requires
        verifier_hash(password, salt1, salt2) == Some(stored),
    ensures
        verification(candidate, salt1, salt2, salt3, stored) == Some(Verdict::Mismatch) <==> (
        verifier_hash(candidate, salt1, salt2) is Some && verifier_hash(candidate, salt1, salt2)
            != verifier_hash(password, salt1, salt2)),
{
}

/// The two profiles differ in cost: the Protection profile has sixteen
/// times the work factor and four times the block size of the
/// Authentication profile.
pub proof fn lemma_profiles_are_apart()
    ensures
        KdfProfile::Protection.n() == 16 * KdfProfile::Authentication.n(),
        KdfProfile::Protection.r() == 4 * KdfProfile::Authentication.r(),
        KdfProfile::Protection.p() == KdfProfile::Authentication.p(),
{
}

/// Each step has one profile, the same in both modes: a match recomputes
/// master key and verifier under the Authentication profile, as the record
/// was made, and protection keys come under the Protection profile alone.
pub proof fn lemma_steps_keep_their_profile(
    password: Seq<u8>,
    salt1: Seq<u8>,
    salt2: Seq<u8>,
    salt3: Seq<u8>,
    stored: Seq<char>,
    dpk: Seq<char>,
)
    requires
        verification(password, salt1, salt2, salt3, stored) == Some(Verdict::Match { dpk }),
    ensures
        master_key(password, salt1) == digest(password, salt1, KdfProfile::Authentication),
        master_key(password, salt1) matches Some(mk) && digest(
            encode_utf8(mk),
            salt2,
            KdfProfile::Authentication,
        ) == Some(stored) && protection_key(password, salt1, salt3) == digest(
            encode_utf8(mk),
            salt3,
            KdfProfile::Protection,
        ),
        digest(password, salt3, KdfProfile::Protection) == Some(dpk),
{
}

} // verus!
