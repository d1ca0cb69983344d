//! The password as it arrives: a byte stream whose trailing line ends are
//! not part of the password.

use vstd::prelude::*;

verus! {

/// Line feed or carriage return.
pub open spec fn is_line_end(b: u8) -> bool {
    b == 0x0a || b == 0x0d
}

/// The length of `s` without its trailing line ends.
pub open spec fn trimmed_len(s: Seq<u8>) -> nat
    decreases s.len(),
{
    if s.len() > 0 && is_line_end(s.last()) {
        trimmed_len(s.drop_last())
    } else {
        s.len()
    }
}

/// `s` without its trailing line ends. Line ends inside and leading white
/// space stay.
pub open spec fn trimmed(s: Seq<u8>) -> Seq<u8> {
    s.take(trimmed_len(s) as int)
}

/// What is cut off is line ends only, and what stays does not end in one.
pub proof fn lemma_trimmed(s: Seq<u8>)
    ensures
        trimmed_len(s) <= s.len(),
        forall|j: int| trimmed_len(s) <= j < s.len() ==> is_line_end(s[j]),
        trimmed_len(s) > 0 ==> !is_line_end(s[trimmed_len(s) - 1]),
        trimmed(trimmed(s)) == trimmed(s),
    decreases s.len(),
{
    if s.len() > 0 && is_line_end(s.last()) {
        let front = s.drop_last();
        lemma_trimmed(front);
        assert forall|j: int| trimmed_len(s) <= j < s.len() implies is_line_end(s[j]) by {
            if j < front.len() {
                assert(front[j] == s[j]);
            }
        }
        if trimmed_len(s) > 0 {
            assert(front[trimmed_len(s) - 1] == s[trimmed_len(s) - 1]);
        }
        assert(trimmed(s) =~= trimmed(front));
    } else {
        assert(trimmed(s) =~= s);
    }
}

fn is_line_end_byte(b: u8) -> (r: bool)
    ensures
        r == is_line_end(b),
{
    b == 0x0a || b == 0x0d
}

/// Strips the trailing carriage returns and line feeds from what was read.
pub fn trim_line_endings(buf: Vec<u8>) -> (r: Vec<u8>)
    ensures
        r@ == trimmed(buf@),
{
    let mut buf = buf;
    let ghost whole = buf@;
    while buf.len() > 0 && is_line_end_byte(buf[buf.len() - 1])
        invariant
            trimmed(buf@) == trimmed(whole),
        decreases buf@.len(),
    {
        proof {
            let front = buf@.drop_last();
            assert(trimmed_len(buf@) == trimmed_len(front));
            assert(trimmed_len(front) <= front.len()) by {
                lemma_trimmed(front);
            }
            assert(trimmed(buf@) =~= trimmed(front));
        }
        buf.pop();
    }
    assert(trimmed(buf@) =~= buf@);
    buf
}

} // verus!
