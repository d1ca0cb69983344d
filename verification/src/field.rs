//! The last field of a `$`-delimited encoding.

use vstd::prelude::*;
use vstd::utf8::decode_utf8;
use vstd::utf8::encode_utf8;
use vstd::utf8::encode_utf8_decode_utf8;
use vstd::utf8::encode_utf8_valid_utf8;
use vstd::utf8::is_char_boundary;
use vstd::utf8::is_char_boundary_iff_not_is_continuation_byte;
use vstd::utf8::is_char_boundary_start_end_of_seq;
use vstd::utf8::length_of_first_scalar;
use vstd::utf8::pop_first_scalar;
use vstd::utf8::valid_utf8;

verus! {

/// The byte that separates the fields of an encoded hash: `$`.
pub const DELIMITER: u8 = 0x24;

/// Where the last field of `text` begins: just behind its last delimiter,
/// or at the start where it holds none.
pub open spec fn last_field_start(text: Seq<u8>) -> int
    decreases text.len(),
{
    if text.len() == 0 {
        0
    } else if text.last() == DELIMITER {
        text.len() as int
    } else {
        last_field_start(text.drop_last())
    }
}

/// The last field of `text`: what follows its last delimiter, the whole
/// text where it holds none, and nothing where the delimiter ends it.
pub open spec fn last_field(text: Seq<u8>) -> Seq<u8> {
    text.subrange(last_field_start(text), text.len() as int)
}

/// The last field begins at the one place that has a delimiter (or the
/// start of the text) before it and no delimiter after it.
pub proof fn lemma_last_field_start(text: Seq<u8>, k: int)
    ensures
        0 <= last_field_start(text) <= text.len(),
        last_field_start(text) == 0 || text[last_field_start(text) - 1] == DELIMITER,
        forall|j: int| last_field_start(text) <= j < text.len() ==> text[j] != DELIMITER,
        (0 <= k <= text.len() && (k == 0 || text[k - 1] == DELIMITER) && forall|j: int|
            k <= j < text.len() ==> text[j] != DELIMITER) ==> k == last_field_start(text),
    decreases text.len(),
{
    if text.len() == 0 {
    } else if text.last() == DELIMITER {
    } else {
        let front = text.drop_last();
        lemma_last_field_start(front, k);
        assert forall|j: int| last_field_start(text) <= j < text.len() implies text[j]
            != DELIMITER by {
            if j < front.len() {
                assert(front[j] == text[j]);
            }
        }
        if 0 <= k <= text.len() && (k == 0 || text[k - 1] == DELIMITER) && forall|j: int|
            k <= j < text.len() ==> text[j] != DELIMITER {
            assert(k < text.len());
            assert forall|j: int| k <= j < front.len() implies front[j] != DELIMITER by {
                assert(front[j] == text[j]);
            }
            if k > 0 {
                assert(front[k - 1] == text[k - 1]);
            }
        }
    }
}

/// The last field holds no delimiter, and the text is what stands before it
/// followed by it.
pub proof fn lemma_last_field(text: Seq<u8>)
    ensures
        !last_field(text).contains(DELIMITER),
        text == text.subrange(0, last_field_start(text)) + last_field(text),
        last_field(last_field(text)) == last_field(text),
{
    lemma_last_field_start(text, 0);
    let field = last_field(text);
    let start = last_field_start(text);
    assert forall|j: int| 0 <= j < field.len() implies field[j] != DELIMITER by {
        assert(field[j] == text[start + j]);
    }
    assert(text =~= text.subrange(0, start) + field);
    lemma_last_field_start(field, 0);
    assert(field =~= field.subrange(0, field.len() as int));
}

/// In well-formed UTF-8 a character ends with each byte below 0x80.
proof fn lemma_boundary_after_ascii(bytes: Seq<u8>, i: int)
    requires
        valid_utf8(bytes),
        0 <= i < bytes.len(),
        bytes[i] < 0x80,
    ensures
        is_char_boundary(bytes, i + 1),
    decreases bytes.len(),
{
    reveal_with_fuel(is_char_boundary, 2);
    reveal_with_fuel(valid_utf8, 2);
    let rest = pop_first_scalar(bytes);
    let width = length_of_first_scalar(bytes);
    if i == 0 {
        assert(width == 1);
        assert(valid_utf8(rest));
        assert(is_char_boundary(rest, 0));
    } else {
        is_char_boundary_iff_not_is_continuation_byte(bytes, i);
        assert(is_char_boundary(bytes, i));
        assert(is_char_boundary(rest, i - width));
        assert(i >= width);
        assert(rest[i - width] == bytes[i]);
        lemma_boundary_after_ascii(rest, i - width);
    }
}

/// The last field of a text: the text whose bytes are the last field of
/// the bytes of `text`.
pub open spec fn last_field_text(text: Seq<char>) -> Seq<char> {
    decode_utf8(last_field(encode_utf8(text)))
}

/// Takes the last `$`-delimited field out of an encoded hash.
pub fn extract_last_field(encoded: &str) -> (r: String)
    ensures
        r@ == last_field_text(encoded@),
        encode_utf8(r@) == last_field(encode_utf8(encoded@)),
{
    let bytes = encoded.as_bytes();
    let mut k: usize = bytes.len();
    while k > 0 && bytes[k - 1] != DELIMITER
        invariant
            k <= bytes@.len(),
            forall|j: int| k <= j < bytes@.len() ==> bytes@[j] != DELIMITER,
        decreases k,
    {
        k -= 1;
    }
    proof {
        lemma_last_field_start(bytes@, k as int);
        encode_utf8_valid_utf8(encoded@);
        if k == 0 || k == bytes@.len() {
            is_char_boundary_start_end_of_seq(bytes@);
        } else {
            lemma_boundary_after_ascii(bytes@, k - 1);
        }
    }
    let (_, field) = encoded.split_at(k);
    proof {
        encode_utf8_decode_utf8(field@);
    }
    field.to_owned()
}

} // verus!
