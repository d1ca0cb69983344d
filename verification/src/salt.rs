//! Salts: sixteen random bytes, written outside as thirty-two hexadecimal digits.

use vstd::prelude::*;
use vstd::string::StringExecFns;
use vstd::utf8::encode_utf8;
use vstd::utf8::is_ascii_chars;
use vstd::utf8::is_ascii_chars_encode_utf8;
use rand::rngs::OsRng;
use rand::TryRngCore;
use crate::hex::decode_digit;
use crate::hex::hex_bytes;
use crate::hex::hex_digit;
use crate::hex::hex_text;
use crate::hex::hex_value;
use crate::hex::is_hex_text;
use crate::hex::lemma_hex_round_trip;

verus! {

/// Number of bytes in a salt.
pub const SALT_LEN: usize = 16;

/// Number of hexadecimal digits in the written form of a salt.
pub const SALT_HEX_LEN: usize = 32;

/// A salt: sixteen bytes.
pub type Salt = [u8; 16];

/// Why a written salt was refused.
#[derive(Clone, Copy, Debug, PartialEq, Eq)]
pub enum SaltError {
    /// The text is not exactly thirty-two bytes long.
    Length,
    /// The text has the right length but holds a byte that is no hexadecimal digit.
    Digit,
}

/// What the written form `text` of a salt decodes to. The length is judged
/// first, so a text of the wrong length is refused whatever it holds.
pub open spec fn salt_parse(text: Seq<u8>) -> Result<Seq<u8>, SaltError> {
    if text.len() != SALT_HEX_LEN {
        Err(SaltError::Length)
    } else if !is_hex_text(text) {
        Err(SaltError::Digit)
    } else {
        Ok(hex_bytes(text))
    }
}

/// The outcome of decoding a salt, over the bytes of the salt.
pub open spec fn salt_outcome(r: Result<Salt, SaltError>) -> Result<Seq<u8>, SaltError> {
    match r {
        Ok(bytes) => Ok(bytes@),
        Err(e) => Err(e),
    }
}

/// The written form of a salt, as characters.
pub open spec fn salt_hex(salt: Seq<u8>) -> Seq<char> {
    Seq::new(2 * salt.len(), |i: int| hex_text(salt)[i] as char)
}

/// The written form of a salt is plain ASCII: its bytes are the hexadecimal text itself.
pub proof fn lemma_salt_hex_bytes(salt: Seq<u8>)
    ensures
        is_ascii_chars(salt_hex(salt)),
        encode_utf8(salt_hex(salt)) == hex_text(salt),
{
    let chars = salt_hex(salt);
    let text = hex_text(salt);
    assert forall|i: int| 0 <= i < chars.len() implies '\0' <= #[trigger] chars[i] <= '\u{7f}'
        && chars[i] as u8 == text[i] by {
        let b = salt[i / 2];
        assert(b / 16 < 16 && b % 16 < 16);
        assert(0x30 <= text[i] <= 0x66);
    }
    is_ascii_chars_encode_utf8(chars);
    assert(encode_utf8(chars) =~= text);
}

/// Decodes the written form of a salt: thirty-two hexadecimal digits of
/// either case. Any other length is refused before a digit is looked at.
pub fn get_salt(salt: String) -> (r: Result<Salt, SaltError>)
    ensures
        salt_outcome(r) == salt_parse(encode_utf8(salt@)),
{
    let text = salt.as_str().as_bytes();
    if text.len() != SALT_HEX_LEN {
        return Err(SaltError::Length);
    }
    let mut bytes = [0u8; 16];
    let mut i: usize = 0;
    while i < SALT_LEN
        invariant
            text@.len() == SALT_HEX_LEN,
            text@ == encode_utf8(salt@),
            i <= SALT_LEN,
            forall|j: int| 0 <= j < 2 * i ==> (#[trigger] hex_value(text@[j])) is Some,
            forall|k: int| 0 <= k < i ==> #[trigger] bytes@[k] == hex_bytes(text@)[k],
        decreases SALT_LEN - i,
    {
        let hi = decode_digit(text[2 * i]);
        let lo = decode_digit(text[2 * i + 1]);
        match (hi, lo) {
            (Some(h), Some(l)) => {
                bytes[i] = h * 16 + l;
            },
            _ => {
                assert(!is_hex_text(text@)) by {
                    if is_hex_text(text@) {
                        assert(hex_value(text@[2 * i]) is Some);
                        assert(hex_value(text@[2 * i + 1]) is Some);
                    }
                }
                return Err(SaltError::Digit);
            },
        }
        assert forall|j: int| 0 <= j < 2 * (i + 1) implies (#[trigger] hex_value(text@[j])) is Some by {
            if j == 2 * i {
            } else if j == 2 * i + 1 {
            }
        }
        i += 1;
    }
    assert(bytes@ =~= hex_bytes(text@));
    Ok(bytes)
}

/// One lowercase hexadecimal digit as text.
fn digit_text(nibble: u8) -> (r: &'static str)
    requires
        nibble < 16,
    ensures
        r@ == seq![hex_digit(nibble) as char],
{
    proof {
        reveal_strlit("0");
        reveal_strlit("1");
        reveal_strlit("2");
        reveal_strlit("3");
        reveal_strlit("4");
        reveal_strlit("5");
        reveal_strlit("6");
        reveal_strlit("7");
        reveal_strlit("8");
        reveal_strlit("9");
        reveal_strlit("a");
        reveal_strlit("b");
        reveal_strlit("c");
        reveal_strlit("d");
        reveal_strlit("e");
        reveal_strlit("f");
    }
    let r = match nibble {
        0 => "0",
        1 => "1",
        2 => "2",
        3 => "3",
        4 => "4",
        5 => "5",
        6 => "6",
        7 => "7",
        8 => "8",
        9 => "9",
        10 => "a",
        11 => "b",
        12 => "c",
        13 => "d",
        14 => "e",
        _ => "f",
    };
    assert(r@ =~= seq![hex_digit(nibble) as char]);
    r
}

/// Writes a salt as thirty-two lowercase hexadecimal digits.
pub fn salt_to_hex(salt: &Salt) -> (r: String)
    ensures
        r@ == salt_hex(salt@),
{
    let mut out = String::new();
    let mut i: usize = 0;
    while i < SALT_LEN
        invariant
            i <= SALT_LEN,
            out@ == salt_hex(salt@).take(2 * i),
        decreases SALT_LEN - i,
    {
        let b = salt[i];
        out.append(digit_text(b / 16));
        out.append(digit_text(b % 16));
        proof {
            let full = salt_hex(salt@);
            assert((2 * i) % 2 == 0 && (2 * i) / 2 == i);
            assert((2 * i + 1) % 2 == 1 && (2 * i + 1) / 2 == i);
            assert(full[2 * i] == hex_digit(b / 16) as char);
            assert(full[2 * i + 1] == hex_digit(b % 16) as char);
            assert(out@ =~= full.take(2 * (i + 1)));
        }
        i += 1;
    }
    assert(out@ =~= salt_hex(salt@));
    out
}

/// Writing a salt and reading the text back gives the same sixteen bytes.
pub proof fn lemma_salt_round_trip(salt: Seq<u8>)
    requires
        salt.len() == SALT_LEN,
    ensures
        salt_parse(encode_utf8(salt_hex(salt))) == Ok::<Seq<u8>, SaltError>(salt),
{
    lemma_salt_hex_bytes(salt);
    lemma_hex_round_trip(salt);
}

/// The three salts of one session, one for each derivation step.
#[derive(Clone, Copy, Debug, PartialEq, Eq)]
pub struct SaltSet {
    /// Salt of the master key.
    pub salt1: Salt,
    /// Salt of the verifier.
    pub salt2: Salt,
    /// Salt of the protection key.
    pub salt3: Salt,
}

/// One of the three places a salt is given in.
#[derive(Clone, Copy, Debug, PartialEq, Eq)]
pub enum SaltSlot {
    First,
    Second,
    Third,
}

/// Why a set of three written salts was refused, and which salt it was.
#[derive(Clone, Copy, Debug, PartialEq, Eq)]
pub enum SaltSetError {
    /// The named salt is not thirty-two bytes long.
    Length(SaltSlot),
    /// All three have the right length; the named one holds a byte that is
    /// no hexadecimal digit.
    Digit(SaltSlot),
}

/// What three written salts decode to. All three lengths are judged before
/// any digit: a wrong length anywhere wins over a wrong digit anywhere, and
/// of several faults of one kind the first salt is named.
pub open spec fn salts_parse(t1: Seq<u8>, t2: Seq<u8>, t3: Seq<u8>) -> Result<
    (Seq<u8>, Seq<u8>, Seq<u8>),
    SaltSetError,
> {
    if t1.len() != SALT_HEX_LEN {
        Err(SaltSetError::Length(SaltSlot::First))
    } else if t2.len() != SALT_HEX_LEN {
        Err(SaltSetError::Length(SaltSlot::Second))
    } else if t3.len() != SALT_HEX_LEN {
        Err(SaltSetError::Length(SaltSlot::Third))
    } else if !is_hex_text(t1) {
        Err(SaltSetError::Digit(SaltSlot::First))
    } else if !is_hex_text(t2) {
        Err(SaltSetError::Digit(SaltSlot::Second))
    } else if !is_hex_text(t3) {
        Err(SaltSetError::Digit(SaltSlot::Third))
    } else {
        Ok((hex_bytes(t1), hex_bytes(t2), hex_bytes(t3)))
    }
}

/// The outcome of decoding three salts, over the bytes of the salts.
pub open spec fn salts_outcome(r: Result<SaltSet, SaltSetError>) -> Result<
    (Seq<u8>, Seq<u8>, Seq<u8>),
    SaltSetError,
> {
    match r {
        Ok(set) => Ok((set.salt1@, set.salt2@, set.salt3@)),
        Err(e) => Err(e),
    }
}

/// Decodes the three written salts of a verification. The three lengths
/// are checked first; only then are the salts decoded, side by side.
pub fn parse_salts(s1: String, s2: String, s3: String) -> (r: Result<SaltSet, SaltSetError>)
    ensures
        salts_outcome(r) == salts_parse(encode_utf8(s1@), encode_utf8(s2@), encode_utf8(s3@)),
{
    if s1.as_str().as_bytes().len() != SALT_HEX_LEN {
        return Err(SaltSetError::Length(SaltSlot::First));
    }
    if s2.as_str().as_bytes().len() != SALT_HEX_LEN {
        return Err(SaltSetError::Length(SaltSlot::Second));
    }
    if s3.as_str().as_bytes().len() != SALT_HEX_LEN {
        return Err(SaltSetError::Length(SaltSlot::Third));
    }
    let ghost t1 = encode_utf8(s1@);
    let ghost t2 = encode_utf8(s2@);
    let ghost t3 = encode_utf8(s3@);
    let second = move || -> (o: Result<Salt, SaltError>)
        ensures
            salt_outcome(o) == salt_parse(t2),
        { get_salt(s2) };
    let third = move || -> (o: Result<Salt, SaltError>)
        ensures
            salt_outcome(o) == salt_parse(t3),
        { get_salt(s3) };
    let first = move || -> (o: Result<Salt, SaltError>)
        ensures
            salt_outcome(o) == salt_parse(t1),
        { get_salt(s1) };
    let rest = move || -> (o: (Result<Salt, SaltError>, Result<Salt, SaltError>))
        ensures
            salt_outcome(o.0) == salt_parse(t2),
            salt_outcome(o.1) == salt_parse(t3),
        { rayon::join(second, third) };
    let (r1, (r2, r3)) = rayon::join(first, rest);
    match (r1, r2, r3) {
        (Ok(salt1), Ok(salt2), Ok(salt3)) => Ok(SaltSet { salt1, salt2, salt3 }),
        (Err(_), _, _) => Err(SaltSetError::Digit(SaltSlot::First)),
        (_, Err(_), _) => Err(SaltSetError::Digit(SaltSlot::Second)),
        (_, _, Err(_)) => Err(SaltSetError::Digit(SaltSlot::Third)),
    }
}

/// The operating system's random source gave no bytes.
#[derive(Clone, Copy, Debug, PartialEq, Eq)]
pub enum EntropyError {
    /// The secure random source is unavailable.
    Unavailable,
}

/// The error of the operating system's random source, carried as it is.
#[verifier::external_type_specification]
#[verifier::external_body]
pub struct ExOsError(rand::rand_core::OsError);

/// `OsRng.try_fill_bytes`: fills the buffer from the operating system's
/// secure random source, or reports that the source failed. Nothing is
/// claimed of the bytes.
#[verifier::external_body]
fn os_random_fill(buf: &mut Salt) -> (r: Result<(), rand::rand_core::OsError>) {
    OsRng.try_fill_bytes(buf)
}

/// One fresh salt from the operating system's secure random source. There
/// is no weaker source to fall back on: a failure of the source is the
/// error.
pub fn generate_salt() -> (r: Result<Salt, EntropyError>) {
    let mut salt = [0u8; 16];
    let filled = os_random_fill(&mut salt);
    salt_of_fill(filled, salt)
}

/// Three fresh salts, drawn independently and side by side. One draw that
/// fails is the failure of all three: no salt stands in for another.
/// What comes back for each outcome of the three draws is `salt_set_of`.
pub fn generate_salts() -> (r: Result<SaltSet, EntropyError>) {
    let second = || -> (o: Result<Salt, EntropyError>) { generate_salt() };
    let third = || -> (o: Result<Salt, EntropyError>) { generate_salt() };
    let first = || -> (o: Result<Salt, EntropyError>) { generate_salt() };
    let rest = move || -> (o: (Result<Salt, EntropyError>, Result<Salt, EntropyError>))
        { rayon::join(second, third) };
    let (r1, (r2, r3)) = rayon::join(first, rest);
    salt_set_of(r1, r2, r3)
}

/// What a draw returns for each outcome of the random source: the buffer
/// where the source filled it, the error where the source failed. A buffer
/// that the source did not fill is never handed out as a salt.
pub fn salt_of_fill(filled: Result<(), rand::rand_core::OsError>, buf: Salt) -> (r: Result<
    Salt,
    EntropyError,
>)
    ensures
        match filled {
            Ok(_) => r == Ok::<Salt, EntropyError>(buf),
            Err(_) => r == Err::<Salt, EntropyError>(EntropyError::Unavailable),
        },
{
    match filled {
        Ok(()) => Ok(buf),
        Err(_) => Err(EntropyError::Unavailable),
    }
}

/// What three draws give together: the set of the three salts in their
/// order where all three succeeded, the error where any of them failed.
pub fn salt_set_of(
    first: Result<Salt, EntropyError>,
    second: Result<Salt, EntropyError>,
    third: Result<Salt, EntropyError>,
) -> (r: Result<SaltSet, EntropyError>)
    ensures
        match (first, second, third) {
            (Ok(salt1), Ok(salt2), Ok(salt3)) => r == Ok::<SaltSet, EntropyError>(
                (SaltSet { salt1, salt2, salt3 }),
            ),
            _ => r == Err::<SaltSet, EntropyError>(EntropyError::Unavailable),
        },
{
    match (first, second, third) {
        (Ok(salt1), Ok(salt2), Ok(salt3)) => Ok(SaltSet { salt1, salt2, salt3 }),
        _ => Err(EntropyError::Unavailable),
    }
}

} // verus!
