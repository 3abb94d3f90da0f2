//! Stateless Schnorr-signature primitives over the ristretto255 group,
//! exposed through a hex-string boundary: key generation, public-key
//! derivation, message signing, nonce-controlled challenge signing, and
//! signature verification.
pub mod curve;
pub mod hashing;
pub mod hex;
pub mod keys;
pub mod laws;
pub mod model;
pub mod schnorr;

pub use keys::{PublicKey, SecretKey};
pub use schnorr::{check_signature, generate_keypair, pubkey_from_hex, pubkey_from_secret, sign,
    sign_challenge_with_nonce, sign_message_with_key, sign_with_key, SignResult,
    SignatureVerifyResult};
