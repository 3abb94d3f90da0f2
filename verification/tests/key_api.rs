use schnorr_keys::{generate_keypair, pubkey_from_hex, pubkey_from_secret};
use std::collections::HashSet;

fn to_hex(bytes: &[u8]) -> String {
    let mut s = String::new();
    for b in bytes {
        s.push_str(&format!("{:02x}", b));
    }
    s
}

const ONE: &str = "0100000000000000000000000000000000000000000000000000000000000000";

#[test]
fn pubkey_from_secret_of_one_is_the_base_point() {
    let expected = to_hex(
        curve25519_dalek::constants::RISTRETTO_BASEPOINT_POINT
            .compress()
            .as_bytes(),
    );
    assert_eq!(pubkey_from_secret(ONE), Some(expected));
}

#[test]
fn pubkey_from_secret_is_deterministic() {
    let (k, p) = generate_keypair();
    let p1 = pubkey_from_secret(&k);
    let p2 = pubkey_from_secret(&k);
    assert_eq!(p1, p2);
    assert_eq!(p1, Some(p));
}

#[test]
fn pubkey_from_secret_rejects_bad_input() {
    assert_eq!(pubkey_from_secret("not-hex"), None);
    assert_eq!(pubkey_from_secret("zz"), None);
    // odd length
    assert_eq!(pubkey_from_secret("abc"), None);
    // wrong length
    assert_eq!(pubkey_from_secret("ab"), None);
    // 32 bytes but not reduced modulo the group order
    let huge = "ff".repeat(32);
    assert_eq!(pubkey_from_secret(&huge), None);
}

#[test]
fn pubkey_from_hex_rejects_non_hex() {
    assert_eq!(pubkey_from_hex("zz"), None);
}

#[test]
fn pubkey_from_hex_rejects_non_points() {
    // wrong length
    assert_eq!(pubkey_from_hex("abcd"), None);
    // 32 bytes that are not the canonical encoding of a group element
    let bad = "ff".repeat(32);
    assert_eq!(pubkey_from_hex(&bad), None);
}

#[test]
fn pubkey_from_hex_accepts_generated_keys() {
    let (_, p) = generate_keypair();
    assert_eq!(pubkey_from_hex(&p), Some(p.clone()));
    let upper = p.to_uppercase();
    assert_eq!(pubkey_from_hex(&upper), Some(p));
}

#[test]
fn generate_keypair_yields_distinct_pairs() {
    let mut secrets: HashSet<String> = HashSet::new();
    let mut publics: HashSet<String> = HashSet::new();
    for _ in 0..250 {
        let (k, p) = generate_keypair();
        assert_eq!(k.len(), 64);
        assert_eq!(p.len(), 64);
        assert!(secrets.insert(k));
        assert!(publics.insert(p));
    }
}
