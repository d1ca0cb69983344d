//! The memory-hard hash behind two fixed cost profiles.

use vstd::prelude::*;
use yescrypt::CustomizedPasswordHasher;
use crate::field::extract_last_field;
use crate::field::last_field_text;

verus! {

/// The two cost settings of the hash. Which one a step uses is fixed by the
/// step, never by the caller of the chain.
#[derive(Clone, Copy, Debug, PartialEq, Eq)]
pub enum KdfProfile {
    /// The cheaper setting, run on every login: master key and verifier.
    Authentication,
    /// The costlier setting, run rarely: protection key.
    Protection,
}

impl KdfProfile {
    /// Work factor N.
    pub open spec fn n(self) -> u64 {
        match self {
            KdfProfile::Authentication => 2048,
            KdfProfile::Protection => 32768,
        }
    }

    /// Block size r.
    pub open spec fn r(self) -> u32 {
        match self {
            KdfProfile::Authentication => 8,
            KdfProfile::Protection => 32,
        }
    }

    /// Parallelism p.
    pub open spec fn p(self) -> u32 {
        1
    }

    /// Work factor N.
    pub fn work_factor(self) -> (n: u64)
        ensures
            n == self.n(),
    {
        match self {
            KdfProfile::Authentication => 2048,
            KdfProfile::Protection => 32768,
        }
    }

    /// Block size r.
    pub fn block_size(self) -> (r: u32)
        ensures
            r == self.r(),
    {
        match self {
            KdfProfile::Authentication => 8,
            KdfProfile::Protection => 32,
        }
    }

    /// Parallelism p.
    pub fn parallelism(self) -> (p: u32)
        ensures
            p == self.p(),
    {
        1
    }
}

/// The hash refused to run.
#[derive(Clone, Copy, Debug, PartialEq, Eq)]
pub enum KdfError {
    /// The primitive rejected its parameters or failed inside.
    Rejected,
}

/// The error of the hash, carried as it is.
#[verifier::external_type_specification]
#[verifier::external_body]
pub struct ExPasswordHashError(yescrypt::password_hash::Error);

/// The cost (N, r, p) is that of one of the two profiles.
pub open spec fn is_profile_cost(n: u64, r: u32, p: u32) -> bool {
    ||| n == KdfProfile::Authentication.n() && r == KdfProfile::Authentication.r() && p
        == KdfProfile::Authentication.p()
    ||| n == KdfProfile::Protection.n() && r == KdfProfile::Protection.r() && p
        == KdfProfile::Protection.p()
}

/// The text that yescrypt, in its read-write mode with t = 0 and g = 0,
/// encodes for a password, a salt and the cost (N, r, p); `None` where it
/// returns an error.
pub uninterp spec fn yescrypt_encoding(password: Seq<u8>, salt: Seq<u8>, n: u64, r: u32, p: u32) -> Option<Seq<char>>;

/// `yescrypt::Params::new_with_all_params` with the default mode, t = 0 and
/// g = 0, then `Yescrypt::hash_password_with_params`. The hash is a function
/// of password, salt and parameters alone, so the text that comes back is
/// the named one; an error of either call is handed on as it is. The cost
/// is kept to the two profiles: the parameter check divides by p, and the
/// memory that the hash takes grows with N times r.
#[verifier::external_body]
fn yescrypt_encode(password: &[u8], salt: &[u8], n: u64, r: u32, p: u32) -> (out: Result<
    String,
    yescrypt::password_hash::Error,
>)
    requires
        is_profile_cost(n, r, p),
    ensures
        match out {
            Ok(text) => yescrypt_encoding(password@, salt@, n, r, p) == Some(text@),
            Err(_) => yescrypt_encoding(password@, salt@, n, r, p) is None,
        },
{
    let params = yescrypt::Params::new_with_all_params(yescrypt::Mode::default(), n, r, p, 0, 0)?;
    let hash = yescrypt::Yescrypt::default().hash_password_with_params(password, salt, params)?;
    Ok(String::from(hash))
}

/// The digest of `input` under `salt` and `profile`: the last field of the
/// encoding, without the algorithm tag, the parameters and the salt that
/// stand before it. `None` where the hash refuses.
pub open spec fn digest(input: Seq<u8>, salt: Seq<u8>, profile: KdfProfile) -> Option<Seq<char>> {
    match yescrypt_encoding(input, salt, profile.n(), profile.r(), profile.p()) {
        Some(text) => Some(last_field_text(text)),
        None => None,
    }
}

/// What a derivation returned, over the text of the digest.
pub open spec fn derived(r: Result<String, KdfError>) -> Option<Seq<char>> {
    match r {
        Ok(d) => Some(d@),
        Err(_) => None,
    }
}

/// What `derive` hands back for each outcome of the hash: the last field of
/// the encoded text, or the library's error for a refusal.
pub fn digest_of(encoding: Result<String, yescrypt::password_hash::Error>) -> (r: Result<
    String,
    KdfError,
>)
    ensures
        match (encoding, r) {
            (Ok(text), Ok(d)) => d@ == last_field_text(text@),
            (Err(_), Err(e)) => e == KdfError::Rejected,
            _ => false,
        },
{
    match encoding {
        Ok(text) => Ok(extract_last_field(text.as_str())),
        Err(_) => Err(KdfError::Rejected),
    }
}

/// Runs the hash on `input` with `salt` under `profile` and keeps the
/// digest field of its encoding.
pub fn derive(input: &[u8], salt: &[u8], profile: KdfProfile) -> (r: Result<String, KdfError>)
    ensures
        derived(r) == digest(input@, salt@, profile),
{
    let n = profile.work_factor();
    let r = profile.block_size();
    let p = profile.parallelism();
    digest_of(yescrypt_encode(input, salt, n, r, p))
}

/// Derives under the Authentication profile: the master key from a
/// password, the verifier from a master key.
pub fn generate_hash_mk(password: &[u8], salt: &[u8]) -> (r: Result<String, KdfError>)
    ensures
        derived(r) == digest(password@, salt@, KdfProfile::Authentication),
{
    derive(password, salt, KdfProfile::Authentication)
}

/// Derives the protection key, under the Protection profile.
pub fn derive_dpk(password: &[u8], salt: &[u8]) -> (r: Result<String, KdfError>)
    ensures
        derived(r) == digest(password@, salt@, KdfProfile::Protection),
{
    derive(password, salt, KdfProfile::Protection)
}

} // verus!
