//! Deterministic text encodings used as hash and signature inputs.
//!
//! Every field that flows into a digest is rendered through the functions
//! here. Variable-length fields are length-prefixed so that no two distinct
//! field lists can render to the same text (concatenating raw fields would
//! let material shift across field boundaries).

use vstd::prelude::*;
use vstd::string::StrSliceExecFns;
use vstd::string::StringExecFns;

verus! {

/// The decimal digit character for a value below ten.
pub open spec fn dec_digit_char(d: nat) -> char
    recommends
        d < 10,
{
    ((48 + d) as u8) as char
}

/// The decimal rendering of a natural number: most significant digit first,
/// no sign, no padding, `0` rendered as a single digit.
pub open spec fn dec_str_of(n: nat) -> Seq<char>
    decreases n,
{
    if n < 10 {
        seq![dec_digit_char(n)]
    } else {
        dec_str_of(n / 10).push(dec_digit_char(n % 10))
    }
}

/// Relies on `u64`'s `Display` implementation: it writes the value in
/// decimal, most significant digit first, without sign or padding.
#[verifier::external_body]
pub(crate) fn u64_to_string(n: u64) -> (r: String)
    ensures
        r@ == dec_str_of(n as nat),
{
    n.to_string()
}

/// A length-prefixed string: its character count in decimal, a colon, then
/// the characters themselves.
pub open spec fn enc_str_of(s: Seq<char>) -> Seq<char> {
    dec_str_of(s.len()) + ":"@ + s
}

/// An unsigned field: its decimal rendering closed by a semicolon.
pub open spec fn enc_u64_of(n: u64) -> Seq<char> {
    dec_str_of(n as nat) + ";"@
}

/// An optional string: `-` when absent, `+` and the length-prefixed string
/// when present.
pub open spec fn enc_opt_str_of(o: Option<Seq<char>>) -> Seq<char> {
    match o {
        Option::None => "-"@,
        Option::Some(s) => "+"@ + enc_str_of(s),
    }
}

/// An optional unsigned field: `-` when absent, `+` and the closed decimal
/// rendering when present.
pub open spec fn enc_opt_u64_of(o: Option<u64>) -> Seq<char> {
    match o {
        Option::None => "-"@,
        Option::Some(n) => "+"@ + enc_u64_of(n),
    }
}

/// The bytes of a byte string, each in decimal closed by a comma.
pub open spec fn enc_bytes_body(b: Seq<u8>) -> Seq<char>
    decreases b.len(),
{
    if b.len() == 0 {
        Seq::empty()
    } else {
        enc_bytes_body(b.drop_last()) + dec_str_of(b.last() as nat) + ","@
    }
}

/// A length-prefixed byte string: its byte count in decimal, a hash mark,
/// then each byte in decimal closed by a comma.
pub open spec fn enc_bytes_of(b: Seq<u8>) -> Seq<char> {
    dec_str_of(b.len()) + "#"@ + enc_bytes_body(b)
}

/// Append the rendering of `enc_str_of` to `out`.
pub fn append_enc_str(out: &mut String, s: &str)
    ensures
        final(out)@ == old(out)@ + enc_str_of(s@),
{
    let n = s.unicode_len();
    let ns = u64_to_string(n as u64);
    out.append(ns.as_str());
    out.append(":");
    out.append(s);
}

/// Append the rendering of `enc_u64_of` to `out`.
pub fn append_enc_u64(out: &mut String, n: u64)
    ensures
        final(out)@ == old(out)@ + enc_u64_of(n),
{
    let ns = u64_to_string(n);
    out.append(ns.as_str());
    out.append(";");
}

/// Append the rendering of `enc_opt_str_of` to `out`.
pub fn append_enc_opt_str(out: &mut String, o: &Option<String>)
    ensures
        final(out)@ == old(out)@ + enc_opt_str_of(o.deep_view()),
{
    match o {
        Option::None => {
            out.append("-");
        },
        Option::Some(s) => {
            out.append("+");
            append_enc_str(out, s.as_str());
        },
    }
}

/// Append the rendering of `enc_opt_u64_of` to `out`.
pub fn append_enc_opt_u64(out: &mut String, o: &Option<u64>)
    ensures
        final(out)@ == old(out)@ + enc_opt_u64_of(*o),
{
    match o {
        Option::None => {
            out.append("-");
        },
        Option::Some(n) => {
            out.append("+");
            append_enc_u64(out, *n);
        },
    }
}

/// Append the rendering of `enc_bytes_of` to `out`.
pub fn append_enc_bytes(out: &mut String, b: &Vec<u8>)
    ensures
        final(out)@ == old(out)@ + enc_bytes_of(b@),
{
    let n = u64_to_string(b.len() as u64);
    out.append(n.as_str());
    out.append("#");
    let ghost base: Seq<char> = out@;
    let mut i: usize = 0;
    while i < b.len()
        invariant
            0 <= i <= b@.len(),
            out@ == base + enc_bytes_body(b@.take(i as int)),
        decreases b@.len() - i,
    {
        let d = u64_to_string(b[i] as u64);
        out.append(d.as_str());
        out.append(",");
        proof {
            assert(b@.take(i + 1 as int).drop_last() =~= b@.take(i as int));
            assert(b@.take(i + 1 as int).last() == b@[i as int]);
        }
        i += 1;
    }
    proof {
        assert(b@.take(b@.len() as int) =~= b@);
    }
}

/// Character-by-character string equality, proved against the string views.
pub fn str_eq(a: &str, b: &str) -> (r: bool)
    ensures
        r == (a@ == b@),
{
    let la = a.unicode_len();
    let lb = b.unicode_len();
    if la != lb {
        proof {
            assert(a@ != b@);
        }
        return false;
    }
    let mut i: usize = 0;
    while i < la
        invariant
            0 <= i <= la,
            la == a@.len(),
            la == b@.len(),
            forall|j: int| 0 <= j < i ==> a@[j] == b@[j],
        decreases la - i,
    {
        if a.get_char(i) != b.get_char(i) {
            return false;
        }
        i += 1;
    }
    proof {
        assert(a@ =~= b@);
    }
    true
}

} // verus!
