use mkdf::salt::SaltSetError;
use mkdf::salt::SaltSlot;
use mkdf::usage::select_mode;
use mkdf::usage::verify_request;
use mkdf::usage::Failure;
use mkdf::usage::Mode;
use mkdf::usage::UsageError;
use mkdf::usage::EXIT_SUCCESS;

fn some(s: &str) -> Option<String> {
    Some(s.to_string())
}

const S1: &str = "000102030405060708090a0b0c0d0e0f";
const S2: &str = "101112131415161718191a1b1c1d1e1f";
const S3: &str = "202122232425262728292a2b2c2d2e2f";

#[test]
fn one_mode_is_selected() {
    assert_eq!(select_mode(true, false), Ok(Mode::Hash));
    assert_eq!(select_mode(false, true), Ok(Mode::Verify));
}

#[test]
fn both_modes_or_none_is_a_usage_error() {
    assert_eq!(select_mode(true, true), Err(UsageError::ModeSelection));
    assert_eq!(select_mode(false, false), Err(UsageError::ModeSelection));
}

#[test]
fn complete_verify_request() {
    let request = verify_request(some(S1), some(S2), some(S3), some("stored")).unwrap();
    assert_eq!(request.phash, "stored");
    assert_eq!(request.salts.salt1, [0, 1, 2, 3, 4, 5, 6, 7, 8, 9, 10, 11, 12, 13, 14, 15]);
    assert_eq!(request.salts.salt2[0], 0x10);
    assert_eq!(request.salts.salt3[15], 0x2f);
}

#[test]
fn verify_request_needs_all_four() {
    assert_eq!(verify_request(None, some(S2), some(S3), some("p")), Err(UsageError::MissingParameter));
    assert_eq!(verify_request(some(S1), None, some(S3), some("p")), Err(UsageError::MissingParameter));
    assert_eq!(verify_request(some(S1), some(S2), None, some("p")), Err(UsageError::MissingParameter));
    assert_eq!(verify_request(some(S1), some(S2), some(S3), None), Err(UsageError::MissingParameter));
    assert_eq!(verify_request(None, None, None, None), Err(UsageError::MissingParameter));
}

#[test]
fn verify_request_with_a_missing_and_a_malformed_parameter() {
    assert_eq!(verify_request(some("00"), some(S2), some(S3), None), Err(UsageError::MissingParameter));
}

#[test]
fn verify_request_with_malformed_salt() {
    assert_eq!(
        verify_request(some(S1), some("10"), some(S3), some("p")),
        Err(UsageError::Salt(SaltSetError::Length(SaltSlot::Second)))
    );
    assert_eq!(
        verify_request(some(S1), some(S2), some("2021222324252627 28292a2b2c2d2e2"), some("p")),
        Err(UsageError::Salt(SaltSetError::Digit(SaltSlot::Third)))
    );
}

#[test]
fn exit_codes() {
    assert_eq!(EXIT_SUCCESS, 0);
    assert_eq!(Failure::Usage(UsageError::ModeSelection).exit_code(), 64);
    assert_eq!(Failure::Usage(UsageError::MissingParameter).exit_code(), 64);
    assert_eq!(
        Failure::Usage(UsageError::Salt(SaltSetError::Length(SaltSlot::First))).exit_code(),
        64
    );
    assert_eq!(
        Failure::Usage(UsageError::Salt(SaltSetError::Digit(SaltSlot::Third))).exit_code(),
        64
    );
    assert_eq!(Failure::Io.exit_code(), 2);
    assert_eq!(Failure::Entropy.exit_code(), 2);
}
