//! The digest primitive and the difficulty predicate over its output.

use sha2::Digest;
use vstd::prelude::*;
use vstd::string::StrSliceExecFns;

verus! {

/// The SHA-256 digest of a byte string, written as 64 lowercase hexadecimal
/// characters.
pub uninterp spec fn sha256_hex_of(bytes: Seq<u8>) -> Seq<char>;

/// The same digest over the UTF-8 encoding of a character string.
pub open spec fn sha256_hex_of_str(s: Seq<char>) -> Seq<char> {
    sha256_hex_of(vstd::utf8::encode_utf8(s))
}

/// A lowercase hexadecimal digit.
pub open spec fn is_hex_digit_char(c: char) -> bool {
    (48 <= c as int && c as int <= 57) || (97 <= c as int && c as int <= 102)
}

/// Relies on sha2's `Sha256`: the digest is a function of the input bytes
/// alone, 32 bytes long, and `{:x}` writes it as 64 lowercase hexadecimal
/// characters.
#[verifier::external_body]
pub(crate) fn sha256_hex(bytes: &[u8]) -> (r: String)
    ensures
        r@ == sha256_hex_of(bytes@),
        r@.len() == 64,
        forall|i: int| 0 <= i < r@.len() ==> is_hex_digit_char(#[trigger] r@[i]),
{
    let mut hasher = sha2::Sha256::new();
    hasher.update(bytes);
    format!("{:x}", hasher.finalize())
}

/// Digest a string through its UTF-8 bytes.
pub(crate) fn sha256_hex_str(s: &str) -> (r: String)
    ensures
        r@ == sha256_hex_of_str(s@),
        r@.len() == 64,
        forall|i: int| 0 <= i < r@.len() ==> is_hex_digit_char(#[trigger] r@[i]),
{
    sha256_hex(s.as_bytes())
}

/// The first `d` characters exist and all are `'0'`.
pub open spec fn leading_zeros_at_least(s: Seq<char>, d: nat) -> bool {
    &&& d <= s.len()
    &&& forall|i: int| 0 <= i < d ==> s[i] == '0'
}

/// Decide `leading_zeros_at_least` for a string.
pub fn has_leading_zeros(s: &str, d: u64) -> (r: bool)
    ensures
        r == leading_zeros_at_least(s@, d as nat),
{
    let len = s.unicode_len();
    if d > len as u64 {
        return false;
    }
    let goal: usize = d as usize;
    let mut i: usize = 0;
    while i < goal
        invariant
            0 <= i <= goal,
            goal == d,
            goal <= s@.len(),
            forall|j: int| 0 <= j < i ==> s@[j] == '0',
        decreases goal - i,
    {
        if s.get_char(i) != '0' {
            return false;
        }
        i += 1;
    }
    true
}

} // verus!
