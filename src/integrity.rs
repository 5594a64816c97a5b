//! Integrity checks: two independent digests of an artifact's bytes, each
//! compared with the value the manifest declares.
use vstd::prelude::*;
use crate::text::{push_char, chars_of};

verus! {

/// The SHA-256 digest of `data`.
pub uninterp spec fn sha256_of(data: Seq<u8>) -> Seq<u8>;

/// The SHA-1 digest of `data`.
pub uninterp spec fn sha1_of(data: Seq<u8>) -> Seq<u8>;

/// Relies on `sha2::Sha256::digest`: the 32-byte SHA-256 digest of the input.
#[verifier::external_body]
fn sha256_digest(data: &Vec<u8>) -> (r: Vec<u8>)
    ensures
        r@ == sha256_of(data@),
        r@.len() == 32,
{
    <sha2::Sha256 as sha2::Digest>::digest(data.as_slice()).to_vec()
}

/// Relies on `sha1::Sha1::digest`: the 20-byte SHA-1 digest of the input.
#[verifier::external_body]
fn sha1_digest(data: &Vec<u8>) -> (r: Vec<u8>)
    ensures
        r@ == sha1_of(data@),
        r@.len() == 20,
{
    <sha1::Sha1 as sha1::Digest>::digest(data.as_slice()).to_vec()
}

/// The lower-case hex digit of a value below sixteen.
pub open spec fn hex_digit_spec(n: u8) -> char {
    if n < 10 {
        (n + 48) as char
    } else {
        (n + 87) as char
    }
}

/// Lower-case hex encoding, two digits per byte.
pub open spec fn hex_spec(data: Seq<u8>) -> Seq<char>
    decreases data.len(),
{
    if data.len() == 0 {
        seq![]
    } else {
        hex_spec(data.drop_last()) + seq![hex_digit_spec(data.last() / 16), hex_digit_spec(data.last() % 16)]
    }
}

fn hex_digit(n: u8) -> (r: char)
    requires
        n < 16,
    ensures
        r == hex_digit_spec(n),
{
    if n < 10 {
        (n + 48) as char
    } else {
        (n + 87) as char
    }
}

/// Encodes bytes as lower-case hex.
pub fn to_hex(data: &Vec<u8>) -> (r: String)
    ensures
        r@ == hex_spec(data@),
{
    let mut out = String::new();
    let mut i: usize = 0;
    while i < data.len()
        invariant
            i <= data@.len(),
            out@ == hex_spec(data@.subrange(0, i as int)),
        decreases data@.len() - i,
    {
        let b = data[i];
        push_char(&mut out, hex_digit(b / 16));
        push_char(&mut out, hex_digit(b % 16));
        proof {
            let s = data@.subrange(0, i + 1);
            assert(s.drop_last() =~= data@.subrange(0, i as int));
            assert(s.last() == b);
            assert(out@ =~= hex_spec(s));
        }
        i = i + 1;
    }
    assert(data@.subrange(0, data@.len() as int) =~= data@);
    out
}

/// ASCII upper-case letters folded to lower case; other characters unchanged.
pub open spec fn fold_case(c: char) -> char {
    if 'A' <= c && c <= 'Z' {
        (((c as u8) + 32) as u8) as char
    } else {
        c
    }
}

/// Equality up to ASCII case.
pub open spec fn same_ignoring_case(a: Seq<char>, b: Seq<char>) -> bool {
    a.len() == b.len() && forall|i: int| 0 <= i < a.len() ==> fold_case(#[trigger] a[i]) == fold_case(b[i])
}

fn fold_case_exec(c: char) -> (r: char)
    ensures
        r == fold_case(c),
{
    if 'A' <= c && c <= 'Z' {
        (((c as u8) + 32) as u8) as char
    } else {
        c
    }
}

/// Compares two texts up to ASCII case.
pub fn eq_ignoring_case(a: &str, b: &str) -> (r: bool)
    ensures
        r == same_ignoring_case(a@, b@),
{
    let x = chars_of(a);
    let y = chars_of(b);
    if x.len() != y.len() {
        return false;
    }
    let mut i: usize = 0;
    while i < x.len()
        invariant
            x@ == a@,
            y@ == b@,
            x@.len() == y@.len(),
            i <= x@.len(),
            forall|j: int| 0 <= j < i ==> fold_case(#[trigger] x@[j]) == fold_case(y@[j]),
        decreases x@.len() - i,
    {
        if fold_case_exec(x[i]) != fold_case_exec(y[i]) {
            return false;
        }
        i = i + 1;
    }
    true
}

/// The two digest algorithms an artifact is checked with.
#[derive(Debug, Clone, Copy, PartialEq, Eq, Structural)]
pub enum HashAlgorithm {
    /// SHA-256.
    Strong,
    /// SHA-1, kept for older signing infrastructure.
    Weak,
}

/// A digest that disagrees with the manifest.
#[derive(Debug, Clone)]
pub struct ChecksumMismatch {
    pub algorithm: HashAlgorithm,
    pub expected: String,
    pub got: String,
}

/// The mismatch that the digest check reports, if any: the strong digest is
/// looked at first.
pub open spec fn digest_check_spec(
    expected_strong: Seq<char>,
    expected_weak: Seq<char>,
    got_strong: Seq<char>,
    got_weak: Seq<char>,
) -> Option<(HashAlgorithm, Seq<char>, Seq<char>)> {
    if !same_ignoring_case(expected_strong, got_strong) {
        Some((HashAlgorithm::Strong, expected_strong, got_strong))
    } else if !same_ignoring_case(expected_weak, got_weak) {
        Some((HashAlgorithm::Weak, expected_weak, got_weak))
    } else {
        None
    }
}

/// How a digest check came out, in terms of views.
pub open spec fn check_outcome(r: Result<(), ChecksumMismatch>) -> Option<(HashAlgorithm, Seq<char>, Seq<char>)> {
    match r {
        Ok(_) => None,
        Err(m) => Some((m.algorithm, m.expected@, m.got@)),
    }
}

/// Compares computed digests with the expected ones, ignoring ASCII case.
/// Both must agree; the first disagreement is reported with both values.
pub fn check_digests(
    expected_strong: &str,
    expected_weak: &str,
    got_strong: &str,
    got_weak: &str,
) -> (r: Result<(), ChecksumMismatch>)
    ensures
        check_outcome(r) == digest_check_spec(expected_strong@, expected_weak@, got_strong@, got_weak@),
{
    let strong_ok = eq_ignoring_case(expected_strong, got_strong);
    let weak_ok = eq_ignoring_case(expected_weak, got_weak);
    if !strong_ok {
        Err(ChecksumMismatch {
            algorithm: HashAlgorithm::Strong,
            expected: crate::text::owned(expected_strong),
            got: crate::text::owned(got_strong),
        })
    } else if !weak_ok {
        Err(ChecksumMismatch {
            algorithm: HashAlgorithm::Weak,
            expected: crate::text::owned(expected_weak),
            got: crate::text::owned(got_weak),
        })
    } else {
        Ok(())
    }
}

/// Computes both digests of `data` and checks them against the expected
/// values.
pub fn verify_artifact(data: &Vec<u8>, expected_strong: &str, expected_weak: &str) -> (r: Result<(), ChecksumMismatch>)
    ensures
        check_outcome(r) == digest_check_spec(
            expected_strong@,
            expected_weak@,
            hex_spec(sha256_of(data@)),
            hex_spec(sha1_of(data@)),
        ),
{
    let strong = to_hex(&sha256_digest(data));
    let weak = to_hex(&sha1_digest(data));
    check_digests(expected_strong, expected_weak, strong.as_str(), weak.as_str())
}

} // verus!
