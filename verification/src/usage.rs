//! What the command line selects, and the code a failed run exits with.

use vstd::prelude::*;
use vstd::utf8::encode_utf8;
use crate::salt::parse_salts;
use crate::salt::salts_parse;
use crate::salt::SaltSet;
use crate::salt::SaltSetError;

verus! {

/// The two modes of a run.
#[derive(Clone, Copy, Debug, PartialEq, Eq)]
pub enum Mode {
    Hash,
    Verify,
}

/// A fault in how the program was called.
#[derive(Clone, Copy, Debug, PartialEq, Eq)]
pub enum UsageError {
    /// Both modes were selected, or neither.
    ModeSelection,
    /// Verify mode lacks a salt or the verifier.
    MissingParameter,
    /// A salt is malformed.
    Salt(SaltSetError),
}

/// Exactly one of the two modes must be selected.
pub fn select_mode(hash: bool, verify: bool) -> (r: Result<Mode, UsageError>)
    ensures
        r == (if hash && !verify {
            Ok::<Mode, UsageError>(Mode::Hash)
        } else if verify && !hash {
            Ok::<Mode, UsageError>(Mode::Verify)
        } else {
            Err::<Mode, UsageError>(UsageError::ModeSelection)
        }),
{
    if hash && !verify {
        Ok(Mode::Hash)
    } else if verify && !hash {
        Ok(Mode::Verify)
    } else {
        Err(UsageError::ModeSelection)
    }
}

/// What verify mode works on besides the password.
#[derive(Clone, Debug, PartialEq, Eq)]
pub struct VerifyRequest {
    /// The three salts, decoded.
    pub salts: SaltSet,
    /// The stored verifier.
    pub phash: String,
}

/// Verify mode needs all three salts and the verifier. With all four
/// present the salts are decoded; the verifier is taken as it is.
pub fn verify_request(
    s1: Option<String>,
    s2: Option<String>,
    s3: Option<String>,
    phash: Option<String>,
) -> (r: Result<VerifyRequest, UsageError>)
    ensures
        match (s1, s2, s3, phash) {
            (Some(t1), Some(t2), Some(t3), Some(stored)) => match salts_parse(
                encode_utf8(t1@),
                encode_utf8(t2@),
                encode_utf8(t3@),
            ) {
                Ok(salts) => r matches Ok(request) && request.phash@ == stored@ && (
                    request.salts.salt1@,
                    request.salts.salt2@,
                    request.salts.salt3@,
                ) == salts,
                Err(e) => r == Err::<VerifyRequest, UsageError>(UsageError::Salt(e)),
            },
            _ => r == Err::<VerifyRequest, UsageError>(UsageError::MissingParameter),
        },
{
    match (s1, s2, s3, phash) {
        (Some(t1), Some(t2), Some(t3), Some(stored)) => match parse_salts(t1, t2, t3) {
            Ok(salts) => Ok(VerifyRequest { salts, phash: stored }),
            Err(e) => Err(UsageError::Salt(e)),
        },
        _ => Err(UsageError::MissingParameter),
    }
}

/// The code of a run that ended well, in either mode and with either
/// verdict.
pub const EXIT_SUCCESS: i32 = 0;

/// Why a run ended early.
#[derive(Clone, Copy, Debug, PartialEq, Eq)]
pub enum Failure {
    /// The program was called wrongly.
    Usage(UsageError),
    /// The password could not be read.
    Io,
    /// The secure random source is unavailable.
    Entropy,
}

impl Failure {
    /// The exit code of a failure: 64 for a fault of usage, 2 for a fault
    /// of input or of the random source.
    pub open spec fn code(self) -> i32 {
        match self {
            Failure::Usage(_) => 64,
            Failure::Io => 2,
            Failure::Entropy => 2,
        }
    }

    /// The exit code of a failure.
    pub fn exit_code(self) -> (r: i32)
        ensures
            r == self.code(),
            r != EXIT_SUCCESS,
    {
        match self {
            Failure::Usage(_) => 64,
            Failure::Io => 2,
            Failure::Entropy => 2,
        }
    }
}

} // verus!
