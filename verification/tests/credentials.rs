//! The credential scheme end to end, with the real hash, random source and
//! hex encoder linked in.
use credchain::crypto;
use credchain::passwords;

const SHA512_ABC: &str = "ddaf35a193617abacc417349ae20413112e6fa4e89a97ea20a9eeee64b55d39a\
2192992a274fc1a836ba3c23a3feebbd454d4423643ce80e2a9ac94fa54ca49f";

const SHA512_EMPTY: &str = "cf83e1357eefb8bdf1542850d66d8007d620e4050b5715dc83f4a921d36ce9ce\
47d0d13c5d85f2b0ff8318d2877eec2f63b931bd47417a81a538327af927da3e";

#[test]
fn round_trip_hunter2() {
    let digest = crypto::encode_password("hunter2", 100);
    assert_eq!(digest.len(), 64);
    assert!(crypto::validate_password("hunter2", &digest, 100));
}

#[test]
fn rejects_wrong_password() {
    let digest = crypto::encode_password("hunter2", 100);
    assert!(!crypto::validate_password("wrong", &digest, 100));
}

#[test]
fn round_trip_empty_password() {
    let digest = crypto::encode_password("", 100);
    assert!(crypto::validate_password("", &digest, 100));
    assert!(!crypto::validate_password("x", &digest, 100));
}

#[test]
fn single_iteration_is_plain_sha512() {
    // With a bound of one no chaining step can be drawn, so the digest is
    // the password's own SHA-512 digest, deterministically.
    let d1 = crypto::encode_password("abc", 1);
    let d2 = crypto::encode_password("abc", 1);
    assert_eq!(d1, d2);
    assert_eq!(d1, hmac_sha512::Hash::hash("abc"));
    assert!(crypto::validate_password("abc", &d1, 1));
}

#[test]
fn bound_excludes_deeper_chain_values() {
    // The digest one chaining step down the chain is accepted under a
    // bound of two but not under a bound of one.
    let h0 = hmac_sha512::Hash::hash("pw");
    let h1 = hmac_sha512::Hash::hash(h0);
    assert!(!crypto::validate_password("pw", &h1, 1));
    assert!(crypto::validate_password("pw", &h1, 2));
}

#[test]
fn repeated_encodes_differ_usually() {
    // The chain depth is redrawn on every call, so two encodings of the
    // same password differ in the overwhelming majority of trials (each
    // pair collides with probability 1/50 here).
    let mut differing: u32 = 0;
    for _ in 0..200 {
        let d1 = crypto::encode_password("samepw", 50);
        let d2 = crypto::encode_password("samepw", 50);
        if d1 != d2 {
            differing += 1;
        }
    }
    assert!(differing >= 150, "only {differing} of 200 pairs differed");
}

#[test]
fn hex_round_trip_hunter2() {
    let pw = String::from("hunter2");
    let stored = passwords::encode_password(&pw, 100);
    assert_eq!(stored.len(), 128);
    assert!(passwords::validate_password(&pw, &stored, 100));
    assert!(!passwords::validate_password(&String::from("wrong"), &stored, 100));
}

#[test]
fn hex_single_iteration_golden() {
    let stored = passwords::encode_password(&String::from("abc"), 1);
    assert_eq!(stored, SHA512_ABC);
}

#[test]
fn hex_empty_password_golden() {
    let stored = passwords::encode_password(&String::new(), 1);
    assert_eq!(stored, SHA512_EMPTY);
    assert!(passwords::validate_password(&String::new(), &stored, 100));
}

#[test]
fn hex_matches_raw_digest() {
    let digest = crypto::encode_password("abc", 1);
    let stored = passwords::encode_password(&String::from("abc"), 1);
    assert_eq!(stored, hex::encode(digest));
}

#[test]
fn hex_repeated_encodes_differ_usually() {
    let pw = String::from("samepw");
    let mut differing: u32 = 0;
    for _ in 0..200 {
        let d1 = passwords::encode_password(&pw, 50);
        let d2 = passwords::encode_password(&pw, 50);
        if d1 != d2 {
            differing += 1;
        }
    }
    assert!(differing >= 150, "only {differing} of 200 pairs differed");
}
