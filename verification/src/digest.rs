//! Content digests in text.

use vstd::prelude::*;
use vstd::string::*;
use crate::chars::to_chars;

verus! {

/// Whether `c` is a hexadecimal digit, in either case.
pub open spec fn is_hex_digit(c: char) -> bool {
    ||| '0' <= c <= '9'
    ||| 'a' <= c <= 'f'
    ||| 'A' <= c <= 'F'
}

/// A SHA-256 digest in text: exactly 64 hexadecimal digits.
pub open spec fn is_sha256_text(s: Seq<char>) -> bool {
    &&& s.len() == 64
    &&& forall|i: int| 0 <= i < s.len() ==> is_hex_digit(#[trigger] s[i])
}

/// Whether `digest` is a SHA-256 digest in text.
pub fn is_valid_sha256(digest: &str) -> (r: bool)
    ensures
        r == is_sha256_text(digest@),
{
    let v = to_chars(digest);
    if v.len() != 64 {
        return false;
    }
    let mut i: usize = 0;
    while i < v.len()
        invariant
            0 <= i <= v@.len(),
            v@ == digest@,
            v@.len() == 64,
            forall|j: int| 0 <= j < i ==> is_hex_digit(#[trigger] v@[j]),
        decreases v@.len() - i,
    {
        let c = v[i];
        if !(('0' <= c && c <= '9') || ('a' <= c && c <= 'f') || ('A' <= c && c <= 'F')) {
            return false;
        }
        i += 1;
    }
    true
}

/// A digest of any other length than 64 is not valid, and neither is one
/// that holds a character which is no hexadecimal digit.
pub proof fn lemma_digest_shape(digest: Seq<char>)
    ensures
        digest.len() != 64 ==> !is_sha256_text(digest),
        (exists|i: int| 0 <= i < digest.len() && !is_hex_digit(#[trigger] digest[i]))
            ==> !is_sha256_text(digest),
{
}

} // verus!
