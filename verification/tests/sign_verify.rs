use curve25519_dalek::ristretto::{CompressedRistretto, RistrettoPoint};
use curve25519_dalek::scalar::Scalar;
use schnorr_keys::{check_signature, generate_keypair, pubkey_from_secret, sign,
    sign_challenge_with_nonce, sign_with_key, SecretKey, SignResult};

fn to_hex(bytes: &[u8]) -> String {
    let mut s = String::new();
    for b in bytes {
        s.push_str(&format!("{:02x}", b));
    }
    s
}

fn from_hex(s: &str) -> Vec<u8> {
    (0..s.len() / 2)
        .map(|i| u8::from_str_radix(&s[2 * i..2 * i + 2], 16).unwrap())
        .collect()
}

/// Check s·G == R + e·P with the curve library itself.
fn equation_holds(nonce_hex: &str, sig_hex: &str, pubkey_hex: &str, challenge_hex: &str) -> bool {
    let big_r = CompressedRistretto::from_slice(&from_hex(nonce_hex))
        .unwrap()
        .decompress()
        .unwrap();
    let p = CompressedRistretto::from_slice(&from_hex(pubkey_hex))
        .unwrap()
        .decompress()
        .unwrap();
    let sig_bytes: [u8; 32] = from_hex(sig_hex).try_into().unwrap();
    let s: Scalar = Option::from(Scalar::from_canonical_bytes(sig_bytes)).unwrap();
    let e_bytes: [u8; 32] = from_hex(challenge_hex).try_into().unwrap();
    let e = Scalar::from_bytes_mod_order(e_bytes);
    RistrettoPoint::mul_base(&s) == big_r + e * p
}

const KEY: &str = "0290abebc921a164a3070c447eebc00dcae1b7d4b12a46f6bbbd9b2eae72eb05";
const NONCE: &str = "b0f6b54bd1dcb4fabe1bbea0f6ca39c244b08ebac47f5e140bbbd4bf0cde030a";

#[test]
fn sign_with_invalid_key_reports_it() {
    let r = sign("not-hex", "hello");
    assert_eq!(r.public_nonce, None);
    assert_eq!(r.signature, None);
    assert_eq!(r.error, "Invalid private key");
}

#[test]
fn sign_then_verify_succeeds() {
    let (k, p) = generate_keypair();
    let sr = sign(&k, "hello world");
    assert_eq!(sr.error, "");
    let nonce = sr.public_nonce.unwrap();
    let sig = sr.signature.unwrap();
    let vr = check_signature(&nonce, &sig, &p, "hello world");
    assert_eq!(vr.error, "");
    assert!(vr.result);
}

#[test]
fn flipped_signature_fails_without_error() {
    let (k, p) = generate_keypair();
    let sr = sign(&k, "a message");
    let nonce = sr.public_nonce.unwrap();
    let sig = sr.signature.unwrap();
    let mut chars: Vec<char> = sig.chars().collect();
    chars[0] = if chars[0] == '0' { '1' } else { '0' };
    let flipped: String = chars.into_iter().collect();
    let vr = check_signature(&nonce, &flipped, &p, "a message");
    assert!(!vr.result);
    assert_eq!(vr.error, "");
}

#[test]
fn flipped_message_fails_without_error() {
    let (k, p) = generate_keypair();
    let sr = sign(&k, "a message");
    let nonce = sr.public_nonce.unwrap();
    let sig = sr.signature.unwrap();
    let vr = check_signature(&nonce, &sig, &p, "a messagf");
    assert!(!vr.result);
    assert_eq!(vr.error, "");
}

#[test]
fn wrong_public_key_fails_without_error() {
    let (k, _) = generate_keypair();
    let (_, other_p) = generate_keypair();
    let sr = sign(&k, "msg");
    let vr = check_signature(&sr.public_nonce.unwrap(), &sr.signature.unwrap(), &other_p, "msg");
    assert!(!vr.result);
    assert_eq!(vr.error, "");
}

#[test]
fn check_signature_reports_malformed_inputs() {
    let (k, p) = generate_keypair();
    let sr = sign(&k, "m");
    let nonce = sr.public_nonce.unwrap();
    let sig = sr.signature.unwrap();

    let vr = check_signature("zz", &sig, &p, "m");
    assert!(!vr.result);
    assert_eq!(vr.error, format!("{} is not a valid public nonce", "zz"));

    let vr = check_signature(&nonce, &sig, "beef", "m");
    assert!(!vr.result);
    assert_eq!(vr.error, format!("{} is not a valid public key", "beef"));

    let vr = check_signature(&nonce, "gg", &p, "m");
    assert!(!vr.result);
    assert_eq!(
        vr.error,
        format!("{} is not a valid hex representation of a signature", "gg")
    );
}

#[test]
fn challenge_signing_validates_in_order() {
    let r = sign_challenge_with_nonce("zz", NONCE, &"ab".repeat(32));
    assert_eq!(r.error, "Invalid private key");
    assert_eq!(r.public_nonce, None);
    assert_eq!(r.signature, None);

    let r = sign_challenge_with_nonce(KEY, "zz", &"ab".repeat(32));
    assert_eq!(r.error, "Invalid private nonce");

    let r = sign_challenge_with_nonce(KEY, NONCE, "zz");
    assert_eq!(r.error, "Challenge was not valid HEX");

    let r = sign_challenge_with_nonce(KEY, NONCE, "abcd");
    assert_eq!(
        r.error,
        "Could not create signature. An invalid challenge was provided"
    );
}

#[test]
fn nonce_reuse_is_not_blocked() {
    let c1 = "aa".repeat(32);
    let c2 = "bb".repeat(32);
    let p = pubkey_from_secret(KEY).unwrap();
    let r1 = sign_challenge_with_nonce(KEY, NONCE, &c1);
    let r2 = sign_challenge_with_nonce(KEY, NONCE, &c2);
    assert_eq!(r1.error, "");
    assert_eq!(r2.error, "");
    let n1 = r1.public_nonce.unwrap();
    let n2 = r2.public_nonce.unwrap();
    assert_eq!(n1, n2);
    let s1 = r1.signature.unwrap();
    let s2 = r2.signature.unwrap();
    assert_ne!(s1, s2);
    assert!(equation_holds(&n1, &s1, &p, &c1));
    assert!(equation_holds(&n2, &s2, &p, &c2));
}

#[test]
fn challenge_signing_agrees_with_message_signing() {
    let digest =
        <blake2::Blake2b<blake2::digest::consts::U32> as blake2::Digest>::digest(b"hello");
    let challenge = to_hex(&digest);
    let p = pubkey_from_secret(KEY).unwrap();
    let sr = sign_challenge_with_nonce(KEY, NONCE, &challenge);
    assert_eq!(sr.error, "");
    let vr = check_signature(
        &sr.public_nonce.unwrap(),
        &sr.signature.unwrap(),
        &p,
        "hello",
    );
    assert_eq!(vr.error, "");
    assert!(vr.result);
}

#[test]
fn sign_with_key_rejects_short_challenges() {
    let k = SecretKey::from_hex(KEY).unwrap();
    let mut result = SignResult::default();
    sign_with_key(&k, &[1u8, 2, 3], None, &mut result);
    assert_eq!(
        result.error,
        "Could not create signature. An invalid challenge was provided"
    );
    assert_eq!(result.public_nonce, None);
    assert_eq!(result.signature, None);
}

#[test]
fn empty_message_signs_and_verifies() {
    let (k, p) = generate_keypair();
    let sr = sign(&k, "");
    assert_eq!(sr.error, "");
    let vr = check_signature(&sr.public_nonce.unwrap(), &sr.signature.unwrap(), &p, "");
    assert_eq!(vr.error, "");
    assert!(vr.result);
}

#[test]
fn default_sign_result_is_empty() {
    let r = SignResult::default();
    assert_eq!(r.public_nonce, None);
    assert_eq!(r.signature, None);
    assert_eq!(r.error, "");
}
