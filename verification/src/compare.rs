//! Equality of secrets without an early exit: every byte of both operands is
//! read whatever the first difference is.

use vstd::prelude::*;
use vstd::utf8::encode_utf8;
use vstd::utf8::encode_utf8_decode_utf8;

verus! {

/// Folding a difference into the accumulator leaves it at zero exactly if it
/// was zero and the two bytes are equal.
proof fn lemma_fold_difference(acc: u8, x: u8, y: u8)
    ensures
        (acc | (x ^ y)) == 0 <==> acc == 0 && x == y,
{
    assert((acc | (x ^ y)) == 0 <==> acc == 0 && x == y) by (bit_vector);
}

/// Two texts with the same UTF-8 bytes are the same text.
pub proof fn lemma_text_of_bytes(a: Seq<char>, b: Seq<char>)
    ensures
        encode_utf8(a) == encode_utf8(b) <==> a == b,
{
    encode_utf8_decode_utf8(a);
    encode_utf8_decode_utf8(b);
}

/// Whether two byte strings are equal. Strings of one length are compared
/// over their whole length: the differences of all byte pairs are folded
/// into one byte, which is tested once at the end.
pub fn bytes_equal(a: &[u8], b: &[u8]) -> (r: bool)
    ensures
        r == (a@ == b@),
{
    if a.len() != b.len() {
        return false;
    }
    let mut acc: u8 = 0;
    let mut i: usize = 0;
    assert(a@.take(0) =~= b@.take(0));
    while i < a.len()
        invariant
            a@.len() == b@.len(),
            i <= a@.len(),
            acc == 0 <==> a@.take(i as int) == b@.take(i as int),
        decreases a@.len() - i,
    {
        proof {
            lemma_fold_difference(acc, a@[i as int], b@[i as int]);
            let a0 = a@.take(i as int);
            let b0 = b@.take(i as int);
            let a1 = a@.take(i + 1);
            let b1 = b@.take(i + 1);
            assert(a1 =~= a0.push(a@[i as int]));
            assert(b1 =~= b0.push(b@[i as int]));
            if a1 == b1 {
                assert(a0 =~= a1.take(i as int));
                assert(b0 =~= b1.take(i as int));
                assert(a1[i as int] == b1[i as int]);
            }
        }
        acc = acc | (a[i] ^ b[i]);
        i += 1;
    }
    assert(a@.take(i as int) =~= a@ && b@.take(i as int) =~= b@);
    acc == 0
}

/// Whether a recomputed digest is the expected one, compared as
/// `bytes_equal` compares.
pub fn digests_equal(computed: &str, expected: &str) -> (r: bool)
    ensures
        r == (computed@ == expected@),
{
    proof {
        lemma_text_of_bytes(computed@, expected@);
    }
    bytes_equal(computed.as_bytes(), expected.as_bytes())
}

} // verus!
