use npmi::errors::InstallError;
use npmi::integrity::verify;
use sha1::Digest;

const ABC_SHA1: &str = "a9993e364706816aba3e25717850c26c9cd0d89d";
const EMPTY_SHA1: &str = "da39a3ee5e6b4b0d3255bfef95601890afd80709";

#[test]
fn a_matching_digest_passes() {
    assert_eq!(verify(b"abc", ABC_SHA1), Ok(()));
    assert_eq!(verify(b"", EMPTY_SHA1), Ok(()));
}

#[test]
fn the_comparison_is_case_insensitive() {
    assert_eq!(verify(b"abc", "A9993E364706816ABA3E25717850C26C9CD0D89D"), Ok(()));
    assert_eq!(verify(b"abc", "A9993e364706816aBa3e25717850c26c9cd0d89d"), Ok(()));
}

#[test]
fn corrupting_a_single_byte_fails_verification() {
    let intact = b"some downloaded artifact bytes".to_vec();
    let declared = base16ct::lower::encode_string(&sha1::Sha1::digest(&intact));
    assert_eq!(verify(&intact, &declared), Ok(()));

    for i in 0..intact.len() {
        let mut corrupted = intact.clone();
        corrupted[i] ^= 0x01;
        match verify(&corrupted, &declared) {
            Err(InstallError::IntegrityMismatch { expected, actual }) => {
                assert_eq!(expected, declared);
                assert_ne!(actual, declared);
                // the reported actual digest is the corrupted content's
                let recomputed = base16ct::lower::encode_string(&sha1::Sha1::digest(&corrupted));
                assert_eq!(actual, recomputed);
            }
            other => panic!("expected an integrity mismatch, got {:?}", other),
        }
    }
}

#[test]
fn a_wrong_declared_digest_fails_with_both_strings() {
    match verify(b"abc", EMPTY_SHA1) {
        Err(InstallError::IntegrityMismatch { expected, actual }) => {
            assert_eq!(expected, EMPTY_SHA1);
            assert_eq!(actual, ABC_SHA1);
        }
        other => panic!("expected an integrity mismatch, got {:?}", other),
    }
}

#[test]
fn a_digest_of_the_wrong_shape_fails() {
    assert!(verify(b"abc", "").is_err());
    assert!(verify(b"abc", "a999").is_err());
    assert!(verify(b"abc", "zzzz3e364706816aba3e25717850c26c9cd0d89d").is_err());
}
