//! Integrity verification of downloaded artifacts.
//!
//! The content digest is computed by the `sha1` crate behind a trusted
//! wrapper and named by [`sha1_of`]; hex encoding is done by `base16ct`
//! against an exact spec. The comparison against the registry-declared
//! digest is case-insensitive and fully verified.

use vstd::prelude::*;
use vstd::string::*;

use sha1::Digest;

use crate::errors::InstallError;

verus! {

/// The 160-bit content digest of a byte string, as the `sha1` crate
/// computes it: a function of the bytes alone.
pub uninterp spec fn sha1_of(data: Seq<u8>) -> Seq<u8>;

/// Relies on `sha1::Sha1` through the `Digest` trait: the digest depends
/// on the input bytes alone and is 20 bytes long.
#[verifier::external_body]
fn sha1_digest(data: &[u8]) -> (r: Vec<u8>)
    ensures
        r@ == sha1_of(data@),
        r@.len() == 20,
{
    sha1::Sha1::digest(data).to_vec()
}

/// The lowercase hex digit of a nibble.
pub open spec fn hex_lower_char(n: u8) -> char {
    seq!['0', '1', '2', '3', '4', '5', '6', '7', '8', '9', 'a', 'b', 'c', 'd', 'e', 'f'][n as int]
}

/// The lowercase hex encoding of a byte string: two digits per byte, most
/// significant nibble first.
pub open spec fn hex_lower(data: Seq<u8>) -> Seq<char>
    decreases data.len(),
{
    if data.len() == 0 {
        Seq::empty()
    } else {
        seq![hex_lower_char(data.first() / 16), hex_lower_char(data.first() % 16)] + hex_lower(
            data.drop_first(),
        )
    }
}

/// Relies on `base16ct::lower::encode_string`: lowercase hex, two digits
/// per byte, most significant nibble first. It panics above
/// `usize::MAX / 2` input bytes, so that is excluded.
#[verifier::external_body]
fn hex_lower_encode(data: &Vec<u8>) -> (r: String)
    requires
        data@.len() <= usize::MAX / 2,
    ensures
        r@ == hex_lower(data@),
{
    base16ct::lower::encode_string(data.as_slice())
}

/// Folds the six uppercase hex digits to lower case and leaves every other
/// character alone. Comparing a folded string with a lowercase hex string
/// is exactly case-insensitive comparison.
pub open spec fn fold_hex_char(c: char) -> char {
    match c {
        'A' => 'a',
        'B' => 'b',
        'C' => 'c',
        'D' => 'd',
        'E' => 'e',
        'F' => 'f',
        _ => c,
    }
}

/// The character-wise fold of a string.
pub open spec fn fold_hex(s: Seq<char>) -> Seq<char> {
    Seq::new(s.len(), |i: int| fold_hex_char(s[i]))
}

/// Whether a declared digest string names this digest, compared
/// case-insensitively.
pub open spec fn digest_matches(digest: Seq<u8>, expected: Seq<char>) -> bool {
    fold_hex(expected) == hex_lower(digest)
}

fn fold_hex_char_exec(c: char) -> (r: char)
    ensures
        r == fold_hex_char(c),
{
    match c {
        'A' => 'a',
        'B' => 'b',
        'C' => 'c',
        'D' => 'd',
        'E' => 'e',
        'F' => 'f',
        _ => c,
    }
}

fn hex_ci_eq(computed: &str, expected: &str) -> (r: bool)
    ensures
        r == (fold_hex(expected@) == computed@),
{
    let clen = computed.unicode_len();
    let elen = expected.unicode_len();
    if clen != elen {
        proof {
            assert(fold_hex(expected@).len() == expected@.len());
        }
        return false;
    }
    let mut i: usize = 0;
    while i < clen
        invariant
            i <= clen,
            clen == computed@.len(),
            computed@.len() == expected@.len(),
            forall|j: int| 0 <= j < i ==> fold_hex_char(expected@[j]) == computed@[j],
        decreases clen - i,
    {
        if fold_hex_char_exec(expected.get_char(i)) != computed.get_char(i) {
            proof {
                assert(fold_hex(expected@)[i as int] != computed@[i as int]);
            }
            return false;
        }
        i += 1;
    }
    proof {
        assert(fold_hex(expected@) =~= computed@);
    }
    true
}

/// Checks a downloaded artifact against its registry-declared digest.
/// Passes exactly when the declared hex string, compared
/// case-insensitively, equals the artifact's content digest; any
/// difference is an `IntegrityMismatch` carrying both strings.
pub fn verify(data: &[u8], expected_digest_hex: &str) -> (r: Result<(), InstallError>)
    ensures
        r is Ok <==> digest_matches(sha1_of(data@), expected_digest_hex@),
        r matches Err(e) ==> e matches InstallError::IntegrityMismatch { expected, actual }
            && expected@ == expected_digest_hex@ && actual@ == hex_lower(sha1_of(data@)),
{
    let digest = sha1_digest(data);
    let hex = hex_lower_encode(&digest);
    if hex_ci_eq(hex.as_str(), expected_digest_hex) {
        Ok(())
    } else {
        Err(
            InstallError::IntegrityMismatch {
                expected: String::from_str(expected_digest_hex),
                actual: hex,
            },
        )
    }
}

} // verus!
