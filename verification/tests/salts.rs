use mkdf::salt::generate_salt;
use mkdf::salt::generate_salts;
use mkdf::salt::get_salt;
use mkdf::salt::parse_salts;
use mkdf::salt::salt_of_fill;
use mkdf::salt::salt_set_of;
use mkdf::salt::salt_to_hex;
use mkdf::salt::EntropyError;
use mkdf::salt::SaltError;
use mkdf::salt::SaltSet;
use mkdf::salt::SaltSetError;
use mkdf::salt::SaltSlot;
use mkdf::salt::SALT_HEX_LEN;
use mkdf::salt::SALT_LEN;

const GOOD: &str = "000102030405060708090a0b0c0d0eff";

#[test]
fn salt_sizes() {
    assert_eq!(SALT_LEN, 16);
    assert_eq!(SALT_HEX_LEN, 32);
}

#[test]
fn salt_round_trip_fixed_value() {
    let salt: [u8; 16] = [0, 1, 2, 3, 4, 5, 6, 7, 8, 9, 10, 11, 12, 13, 14, 255];
    let text = salt_to_hex(&salt);
    assert_eq!(text, GOOD);
    assert_eq!(get_salt(text), Ok(salt));
}

#[test]
fn salt_round_trip_extremes() {
    for salt in [[0u8; 16], [0xffu8; 16], [0x0fu8; 16], [0xf0u8; 16], [0x9au8; 16]] {
        let text = salt_to_hex(&salt);
        assert_eq!(text.len(), 32);
        assert_eq!(get_salt(text), Ok(salt));
    }
}

#[test]
fn salt_round_trip_every_byte_value() {
    let mut first: u8 = 0;
    for _ in 0..16 {
        let mut salt = [0u8; 16];
        for (i, b) in salt.iter_mut().enumerate() {
            *b = first.wrapping_add(i as u8);
        }
        assert_eq!(get_salt(salt_to_hex(&salt)), Ok(salt));
        first = first.wrapping_add(16);
    }
}

#[test]
fn salt_round_trip_generated() {
    for _ in 0..64 {
        let salt = generate_salt().unwrap();
        assert_eq!(get_salt(salt_to_hex(&salt)), Ok(salt));
    }
}

#[test]
fn salt_text_is_lowercase() {
    assert_eq!(salt_to_hex(&[0xabu8; 16]), "abababababababababababababababab");
}

#[test]
fn salt_accepts_uppercase_digits() {
    assert_eq!(
        get_salt("000102030405060708090A0B0C0D0EFF".to_string()),
        Ok([0, 1, 2, 3, 4, 5, 6, 7, 8, 9, 10, 11, 12, 13, 14, 255])
    );
}

#[test]
fn salt_of_wrong_length_is_refused() {
    assert_eq!(get_salt(String::new()), Err(SaltError::Length));
    assert_eq!(get_salt("00".to_string()), Err(SaltError::Length));
    assert_eq!(get_salt(GOOD[..31].to_string()), Err(SaltError::Length));
    assert_eq!(get_salt(format!("{GOOD}0")), Err(SaltError::Length));
    assert_eq!(get_salt(format!("{GOOD}{GOOD}")), Err(SaltError::Length));
}

#[test]
fn salt_length_is_judged_before_digits() {
    assert_eq!(get_salt("zz".to_string()), Err(SaltError::Length));
    assert_eq!(get_salt("z".repeat(31)), Err(SaltError::Length));
    assert_eq!(get_salt("z".repeat(33)), Err(SaltError::Length));
}

#[test]
fn salt_length_counts_bytes() {
    // 32 characters, 33 bytes
    let text = format!("{}é", &GOOD[..31]);
    assert_eq!(text.chars().count(), 32);
    assert_eq!(get_salt(text), Err(SaltError::Length));
}

#[test]
fn salt_with_foreign_byte_is_refused() {
    assert_eq!(get_salt("z".repeat(32)), Err(SaltError::Digit));
    assert_eq!(get_salt(format!("{}g", &GOOD[..31])), Err(SaltError::Digit));
    assert_eq!(get_salt(format!("g{}", &GOOD[1..])), Err(SaltError::Digit));
    assert_eq!(get_salt(format!("{} ", &GOOD[..31])), Err(SaltError::Digit));
    // 30 digits and one two-byte character: 32 bytes
    assert_eq!(get_salt(format!("{}é", &GOOD[..30])), Err(SaltError::Digit));
}

#[test]
fn salt_sign_is_no_digit() {
    assert_eq!(get_salt(format!("+f{}", &GOOD[2..])), Err(SaltError::Digit));
    assert_eq!(get_salt(format!("{}-1", &GOOD[..30])), Err(SaltError::Digit));
}

#[test]
fn three_salts_are_decoded() {
    let set = parse_salts(
        "000102030405060708090a0b0c0d0e0f".to_string(),
        "101112131415161718191a1b1c1d1e1f".to_string(),
        "202122232425262728292a2b2c2d2e2f".to_string(),
    )
    .unwrap();
    assert_eq!(set.salt1[0], 0x00);
    assert_eq!(set.salt1[15], 0x0f);
    assert_eq!(set.salt2[0], 0x10);
    assert_eq!(set.salt2[15], 0x1f);
    assert_eq!(set.salt3[0], 0x20);
    assert_eq!(set.salt3[15], 0x2f);
}

#[test]
fn three_salts_name_the_wrong_length() {
    let good = GOOD.to_string();
    assert_eq!(
        parse_salts("00".to_string(), good.clone(), good.clone()),
        Err(SaltSetError::Length(SaltSlot::First))
    );
    assert_eq!(
        parse_salts(good.clone(), "00".to_string(), good.clone()),
        Err(SaltSetError::Length(SaltSlot::Second))
    );
    assert_eq!(
        parse_salts(good.clone(), good.clone(), format!("{GOOD}00")),
        Err(SaltSetError::Length(SaltSlot::Third))
    );
    assert_eq!(
        parse_salts("0".to_string(), "1".to_string(), "2".to_string()),
        Err(SaltSetError::Length(SaltSlot::First))
    );
}

#[test]
fn three_salts_lengths_come_before_any_digit() {
    let good = GOOD.to_string();
    // the first salt has a bad digit, the third a bad length: the length is reported
    assert_eq!(
        parse_salts("z".repeat(32), good.clone(), "00".to_string()),
        Err(SaltSetError::Length(SaltSlot::Third))
    );
    assert_eq!(
        parse_salts("z".repeat(32), "z".repeat(5), good.clone()),
        Err(SaltSetError::Length(SaltSlot::Second))
    );
}

#[test]
fn three_salts_name_the_wrong_digit() {
    let good = GOOD.to_string();
    assert_eq!(
        parse_salts("z".repeat(32), good.clone(), good.clone()),
        Err(SaltSetError::Digit(SaltSlot::First))
    );
    assert_eq!(
        parse_salts(good.clone(), "z".repeat(32), "z".repeat(32)),
        Err(SaltSetError::Digit(SaltSlot::Second))
    );
    assert_eq!(
        parse_salts(good.clone(), good.clone(), "z".repeat(32)),
        Err(SaltSetError::Digit(SaltSlot::Third))
    );
}

#[test]
fn generated_salt_is_filled() {
    let a = generate_salt().unwrap();
    let b = generate_salt().unwrap();
    assert_ne!(a, [0u8; 16]);
    assert_ne!(b, [0u8; 16]);
    assert_ne!(a, b);
}

#[test]
fn generated_salts_are_three_different_ones() {
    let SaltSet { salt1, salt2, salt3 } = generate_salts().unwrap();
    assert_ne!(salt1, salt2);
    assert_ne!(salt1, salt3);
    assert_ne!(salt2, salt3);
    let again = generate_salts().unwrap();
    assert_ne!(again.salt1, salt1);
    assert_ne!(again.salt2, salt2);
    assert_ne!(again.salt3, salt3);
}

#[test]
fn a_filled_buffer_is_the_salt() {
    assert_eq!(salt_of_fill(Ok(()), [7u8; 16]), Ok([7u8; 16]));
    assert_eq!(salt_of_fill(Ok(()), [0u8; 16]), Ok([0u8; 16]));
}

#[test]
fn three_draws_make_a_set_in_their_order() {
    assert_eq!(
        salt_set_of(Ok([1u8; 16]), Ok([2u8; 16]), Ok([3u8; 16])),
        Ok(SaltSet { salt1: [1u8; 16], salt2: [2u8; 16], salt3: [3u8; 16] })
    );
}

#[test]
fn one_failed_draw_fails_the_set() {
    let failed: Result<[u8; 16], EntropyError> = Err(EntropyError::Unavailable);
    let refused: Result<SaltSet, EntropyError> = Err(EntropyError::Unavailable);
    assert_eq!(salt_set_of(failed, Ok([2u8; 16]), Ok([3u8; 16])), refused);
    assert_eq!(salt_set_of(Ok([1u8; 16]), failed, Ok([3u8; 16])), refused);
    assert_eq!(salt_set_of(Ok([1u8; 16]), Ok([2u8; 16]), failed), refused);
    assert_eq!(salt_set_of(failed, failed, failed), refused);
}
