//! Hash mode: from a password and three salts to the values that are stored.
//!
//! The master key comes from the password and the first salt. The verifier
//! and the protection key both come from the master key, each with its own
//! salt, and do not depend on each other.

use vstd::prelude::*;
use vstd::utf8::encode_utf8;
use crate::kdf::derive_dpk;
use crate::kdf::derived;
use crate::kdf::digest;
use crate::kdf::generate_hash_mk;
use crate::kdf::KdfError;
use crate::kdf::KdfProfile;
use crate::salt::generate_salts;
use crate::salt::salt_hex;
use crate::salt::salt_to_hex;
use crate::salt::EntropyError;
use crate::salt::Salt;
use crate::salt::SaltSet;

verus! {

/// The master key of a password: its digest under the first salt and the
/// Authentication profile.
pub open spec fn master_key(password: Seq<u8>, salt1: Seq<u8>) -> Option<Seq<char>> {
    digest(password, salt1, KdfProfile::Authentication)
}

/// The verifier of a password: the digest of the bytes of its master key
/// under the second salt and the Authentication profile.
pub open spec fn verifier_hash(password: Seq<u8>, salt1: Seq<u8>, salt2: Seq<u8>) -> Option<
    Seq<char>,
> {
    match master_key(password, salt1) {
        Some(mk) => digest(encode_utf8(mk), salt2, KdfProfile::Authentication),
        None => None,
    }
}

/// The protection key that hash mode emits: the digest of the bytes of the
/// master key under the third salt and the Protection profile.
pub open spec fn protection_key(password: Seq<u8>, salt1: Seq<u8>, salt3: Seq<u8>) -> Option<
    Seq<char>,
> {
    match master_key(password, salt1) {
        Some(mk) => digest(encode_utf8(mk), salt3, KdfProfile::Protection),
        None => None,
    }
}

/// What hash mode emits. The master key is not among it.
#[derive(Clone, Debug, PartialEq, Eq)]
pub struct HashRecord {
    /// Salt of the master key.
    pub salt1: Salt,
    /// The verifier: digest of the master key.
    pub hash_mk: String,
    /// Salt of the verifier.
    pub salt2: Salt,
    /// The protection key.
    pub dpk: String,
    /// Salt of the protection key.
    pub salt3: Salt,
}

/// A hash record as mathematical values.
pub struct HashRecordView {
    pub salt1: Seq<u8>,
    pub hash_mk: Seq<char>,
    pub salt2: Seq<u8>,
    pub dpk: Seq<char>,
    pub salt3: Seq<u8>,
}

impl View for HashRecord {
    type V = HashRecordView;

    open spec fn view(&self) -> HashRecordView {
        HashRecordView {
            salt1: self.salt1@,
            hash_mk: self.hash_mk@,
            salt2: self.salt2@,
            dpk: self.dpk@,
            salt3: self.salt3@,
        }
    }
}

/// The record of a password under three salts; `None` where one of the
/// three derivations is refused.
pub open spec fn hash_record(password: Seq<u8>, salt1: Seq<u8>, salt2: Seq<u8>, salt3: Seq<u8>) -> Option<
    HashRecordView,
> {
    match (verifier_hash(password, salt1, salt2), protection_key(password, salt1, salt3)) {
        (Some(hash_mk), Some(dpk)) => Some(HashRecordView { salt1, hash_mk, salt2, dpk, salt3 }),
        _ => None,
    }
}

/// What a run of the chain returned, as mathematical values.
pub open spec fn recorded(r: Result<HashRecord, KdfError>) -> Option<HashRecordView> {
    match r {
        Ok(record) => Some(record@),
        Err(_) => None,
    }
}

/// Runs the three derivations on given salts: first the master key, then,
/// side by side, the verifier and the protection key.
pub fn derive_chain(password: &[u8], salts: &SaltSet) -> (r: Result<HashRecord, KdfError>)
    ensures
        recorded(r) == hash_record(password@, salts.salt1@, salts.salt2@, salts.salt3@),
{
    let mk = match generate_hash_mk(password, salts.salt1.as_slice()) {
        Ok(mk) => mk,
        Err(e) => {
            return Err(e);
        },
    };
    let mk_bytes = mk.as_str().as_bytes();
    let salt2 = salts.salt2.as_slice();
    let salt3 = salts.salt3.as_slice();
    let hash_the_key = || -> (o: Result<String, KdfError>)
        ensures
            derived(o) == digest(mk_bytes@, salt2@, KdfProfile::Authentication),
        { generate_hash_mk(mk_bytes, salt2) };
    let protect = || -> (o: Result<String, KdfError>)
        ensures
            derived(o) == digest(mk_bytes@, salt3@, KdfProfile::Protection),
        { derive_dpk(mk_bytes, salt3) };
    let (hash_mk, dpk) = rayon::join(hash_the_key, protect);
    match (hash_mk, dpk) {
        (Ok(hash_mk), Ok(dpk)) => Ok(
            HashRecord { salt1: salts.salt1, hash_mk, salt2: salts.salt2, dpk, salt3: salts.salt3 },
        ),
        _ => Err(KdfError::Rejected),
    }
}

/// Why hash mode gave no record.
#[derive(Clone, Copy, Debug, PartialEq, Eq)]
pub enum HashError {
    /// No salts could be drawn.
    Entropy(EntropyError),
    /// A derivation was refused.
    Kdf(KdfError),
}

/// What hash mode returns for each outcome of drawing the salts: the
/// entropy error as it is, else the record of the password under the salts
/// drawn.
pub fn hash_with_salts(password: &[u8], salts: Result<SaltSet, EntropyError>) -> (r: Result<
    HashRecord,
    HashError,
>)
    ensures
        match salts {
            Ok(set) => match r {
                Ok(record) => hash_record(password@, set.salt1@, set.salt2@, set.salt3@) == Some(
                    record@,
                ),
                Err(e) => e == HashError::Kdf(KdfError::Rejected) && hash_record(
                    password@,
                    set.salt1@,
                    set.salt2@,
                    set.salt3@,
                ) is None,
            },
            Err(e) => r == Err::<HashRecord, HashError>(HashError::Entropy(e)),
        },
{
    match salts {
        Ok(set) => match derive_chain(password, &set) {
            Ok(record) => Ok(record),
            Err(e) => Err(HashError::Kdf(e)),
        },
        Err(e) => Err(HashError::Entropy(e)),
    }
}

/// Hash mode: draws three fresh salts and runs the chain on them. The record is that of the
/// password under the salts it names; a refusal of the hash is reported only where one occurred.
pub fn hash_password(password: &Vec<u8>) -> (r: Result<HashRecord, HashError>)
    ensures
        r matches Ok(record) ==> hash_record(
            password@,
            record.salt1@,
            record.salt2@,
            record.salt3@,
        ) == Some(record@),
        r matches Err(HashError::Kdf(_)) ==> exists|salt1: Seq<u8>, salt2: Seq<u8>, salt3: Seq<u8>|
            salt1.len() == 16 && salt2.len() == 16 && salt3.len() == 16 && (
            #[trigger] hash_record(password@, salt1, salt2, salt3)) is None,
{
    let salts = generate_salts();
    let r = hash_with_salts(password.as_slice(), salts);
    proof {
        if let Ok(set) = salts {
            assert(set.salt1@.len() == 16 && set.salt2@.len() == 16 && set.salt3@.len() == 16);
            if r is Err {
                assert(hash_record(password@, set.salt1@, set.salt2@, set.salt3@) is None);
            }
        }
    }
    r
}

impl HashRecord {
    /// The five lines that hash mode prints, in their order: first salt,
    /// verifier, second salt, protection key, third salt; the salts in
    /// hexadecimal.
    pub fn lines(&self) -> (r: Vec<String>)
        ensures
            r@.len() == 5,
            r@[0]@ == salt_hex(self.salt1@),
            r@[1]@ == self.hash_mk@,
            r@[2]@ == salt_hex(self.salt2@),
            r@[3]@ == self.dpk@,
            r@[4]@ == salt_hex(self.salt3@),
    {
        let mut out: Vec<String> = Vec::new();
        out.push(salt_to_hex(&self.salt1));
        out.push(self.hash_mk.clone());
        out.push(salt_to_hex(&self.salt2));
        out.push(self.dpk.clone());
        out.push(salt_to_hex(&self.salt3));
        out
    }
}

} // verus!
