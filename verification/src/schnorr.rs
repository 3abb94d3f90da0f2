//! The Schnorr key service: key generation, public-key derivation, message
//! signing, nonce-controlled challenge signing, and signature verification.
//! Every entry point decodes its hex inputs, delegates the group arithmetic
//! to the trusted curve boundary, and packages a result envelope; no entry
//! point keeps state across calls.
use crate::curve::{point_add, point_base_mul, point_mul, random_scalar, scalar_add_mod, scalar_mul_mod, scalar_reduce};
use crate::hashing::digest_message;
use crate::hex::{hex_decode_spec, hex_encode, hex_encode_spec, is_hex_str};
use crate::keys::{valid_point_hex, valid_scalar_hex, PublicKey, SecretKey};
use crate::model::{base_mul_of, digest_of, dlog_unique, group_order, is_canonical_scalar, is_valid_point, le_nat};
use vstd::arithmetic::div_mod::{lemma_add_mod_noop_right, lemma_mod_bound};
use vstd::prelude::*;
use vstd::slice::slice_to_vec;
use vstd::string::*;

verus! {

/// Outcome of a verification call. Exactly one of a `false` result with a
/// non-empty error (malformed input) or a plain boolean result with an empty
/// error (the verification math ran) is produced per call.
pub struct SignatureVerifyResult {
    pub result: bool,
    pub error: String,
}

/// Outcome of a signing call: either both success fields are set and the
/// error is empty, or neither is set and the error says what was wrong.
pub struct SignResult {
    pub public_nonce: Option<String>,
    pub signature: Option<String>,
    pub error: String,
}

impl Default for SignResult {
    fn default() -> (r: SignResult)
        ensures
            r.public_nonce is None,
            r.signature is None,
            r.error@ == Seq::<char>::empty(),
    {
        SignResult { public_nonce: None, signature: None, error: String::new() }
    }
}

/// The challenge scalar of challenge bytes `e`: their value reduced modulo
/// the group order.
pub open spec fn challenge_scalar(e: Seq<u8>) -> int {
    (le_nat(e) % group_order()) as int
}

/// The value of the signature scalar for secret value `kn`, nonce value
/// `rn` and challenge bytes `e`: `rn + e * kn`, reduced.
pub open spec fn sig_scalar(kn: int, rn: int, e: Seq<u8>) -> int {
    (rn + challenge_scalar(e) * kn) % (group_order() as int)
}

/// The value a hex-encoded scalar stands for.
pub open spec fn secret_nat(s: Seq<char>) -> int {
    le_nat(hex_decode_spec(s)) as int
}

/// A `SignResult` that carries the signature `(R, s)` of secret value `kn`
/// and challenge `e` under nonce value `rn`, where `s` has canonical
/// encoding `sb`: the public nonce field holds `hex(rn·G)` and the
/// signature field holds `hex(s)` with `s = rn + e·kn` reduced.
pub open spec fn signed_ok(res: SignResult, kn: int, rn: int, e: Seq<u8>, sb: Seq<u8>) -> bool {
    &&& res.public_nonce matches Some(pn) && pn@ == hex_encode_spec(base_mul_of(rn))
    &&& res.signature matches Some(sg) && sg@ == hex_encode_spec(sb)
    &&& is_canonical_scalar(sb)
    &&& le_nat(sb) == sig_scalar(kn, rn, e)
    &&& base_mul_of(rn).len() == 32
    &&& dlog_unique(base_mul_of(rn))
}

/// A `SignResult` that reports failure with the given message and no
/// partial result.
pub open spec fn sign_failed(res: SignResult, msg: Seq<char>) -> bool {
    res.public_nonce is None && res.signature is None && res.error@ == msg
}

/// The Schnorr verification equation holds for nonce point `bigr`, public
/// key `p`, canonical signature scalar `sb` and challenge bytes `e`: both
/// points are multiples of the base point, by `rn` and `kn` say, and
/// `s = rn + e·kn` reduced.
pub open spec fn verify_ok(bigr: Seq<u8>, p: Seq<u8>, sb: Seq<u8>, e: Seq<u8>) -> bool {
    exists|rn: int, kn: int|
        0 <= rn < group_order() && 0 <= kn < group_order() && bigr == #[trigger] base_mul_of(rn)
            && p == #[trigger] base_mul_of(kn) && le_nat(sb) == sig_scalar(kn, rn, e)
}

/// Compare two byte slices.
fn bytes_eq(a: &[u8], b: &[u8]) -> (r: bool)
    ensures
        r == (a@ == b@),
{
    if a.len() != b.len() {
        proof {
            assert(a@ != b@);
        }
        return false;
    }
    let n = a.len();
    let mut i: usize = 0;
    while i < n
        invariant
            n == a@.len(),
            n == b@.len(),
            i <= n,
            forall|j: int| 0 <= j < i ==> a@[j] == b@[j],
        decreases n - i,
    {
        if a[i] != b[i] {
            return false;
        }
        i = i + 1;
    }
    proof {
        assert(a@ =~= b@);
    }
    true
}

/// Sign the challenge bytes `e` with secret key `k`, drawing a fresh random
/// nonce when `r` is `None` and using the supplied nonce otherwise. The
/// challenge must be exactly 32 bytes; otherwise the result reports that no
/// signature could be created and the success fields are left untouched.
pub fn sign_with_key(k: &SecretKey, e: &[u8], r: Option<&SecretKey>, result: &mut SignResult)
    requires
        k.wf(),
        old(result).public_nonce is None,
        old(result).signature is None,
        (r matches Some(x) ==> x.wf()),
    ensures
        e@.len() != 32 ==> sign_failed(
            *final(result),
            "Could not create signature. An invalid challenge was provided"@,
        ),
        e@.len() == 32 ==> final(result).error == old(result).error && exists|rn: int, sb: Seq<u8>|
            0 <= rn < group_order() && #[trigger] signed_ok(
                *final(result),
                le_nat(k@) as int,
                rn,
                e@,
                sb,
            ) && (r matches Some(x) ==> rn == le_nat(x@)),
{
    if e.len() != 32 {
        result.error = String::from_str("Could not create signature. An invalid challenge was provided");
        return ;
    }
    let (r_bytes, big_r): (Vec<u8>, Vec<u8>) = match r {
        Some(x) => (slice_to_vec(x.bytes()), point_base_mul(x.bytes())),
        None => {
            let rb = random_scalar();
            let br = point_base_mul(rb.as_slice());
            (rb, br)
        },
    };
    let e_s = scalar_reduce(e);
    let ek = scalar_mul_mod(e_s.as_slice(), k.bytes());
    let s = scalar_add_mod(r_bytes.as_slice(), ek.as_slice());
    result.public_nonce = Some(hex_encode(big_r.as_slice()));
    result.signature = Some(hex_encode(s.as_slice()));
    proof {
        let ell = group_order() as int;
        let rn = le_nat(r_bytes@) as int;
        let kn = le_nat(k@) as int;
        lemma_add_mod_noop_right(rn, challenge_scalar(e@) * kn, ell);
        assert(le_nat(s@) == sig_scalar(kn, rn, e@));
        assert(signed_ok(*result, kn, rn, e@, s@));
    }
}

/// Sign a message with secret key `k`: the challenge is the message digest.
/// The digest is always 32 bytes, so signing always succeeds.
pub fn sign_message_with_key(k: &SecretKey, msg: &str, r: Option<&SecretKey>, result: &mut SignResult)
    requires
        k.wf(),
        old(result).public_nonce is None,
        old(result).signature is None,
        (r matches Some(x) ==> x.wf()),
    ensures
        final(result).error == old(result).error,
        exists|rn: int, sb: Seq<u8>|
            0 <= rn < group_order() && #[trigger] signed_ok(
                *final(result),
                le_nat(k@) as int,
                rn,
                digest_of(msg@),
                sb,
            ) && (r matches Some(x) ==> rn == le_nat(x@)),
{
    let e = digest_message(msg);
    sign_with_key(k, e.as_slice(), r, result)
}

/// The hex form of the public key derived from a hex-encoded secret key.
pub open spec fn derived_pubkey_hex(k: Seq<char>) -> Seq<char> {
    hex_encode_spec(base_mul_of(secret_nat(k)))
}

/// Create and return a new secret / public key pair, both hex encoded. The
/// secret scalar is drawn from the secure system RNG; all that is promised
/// of it is that it is canonical and that the public half is derived from
/// it.
pub fn generate_keypair() -> (r: (String, String))
    ensures
        exists|sk: Seq<u8>|
            is_canonical_scalar(sk) && r.0@ == #[trigger] hex_encode_spec(sk) && r.1@
                == hex_encode_spec(base_mul_of(le_nat(sk) as int)),
{
    let rb = random_scalar();
    let k = SecretKey::from_canonical_bytes(rb);
    let p = PublicKey::from_secret_key(&k);
    let r = (k.to_hex(), p.to_hex());
    proof {
        assert(is_canonical_scalar(k@) && r.0@ == hex_encode_spec(k@) && r.1@
            == hex_encode_spec(base_mul_of(le_nat(k@) as int)));
    }
    r
}

/// Re-encode a public key from a hex string, or `None` if the string is
/// not the canonical hex encoding of a group element.
pub fn pubkey_from_hex(hex: &str) -> (r: Option<String>)
    ensures
        match r {
            Some(p) => valid_point_hex(hex@) && p@ == hex_encode_spec(hex_decode_spec(hex@)),
            None => !valid_point_hex(hex@),
        },
{
    match PublicKey::from_hex(hex) {
        Some(pk) => Some(pk.to_hex()),
        None => None,
    }
}

/// The hex-encoded public key associated with a hex-encoded secret key, or
/// `None` if the input is not a valid secret key. Pure and deterministic:
/// the result is a function of the input string alone.
pub fn pubkey_from_secret(k: &str) -> (r: Option<String>)
    ensures
        match r {
            Some(p) => valid_scalar_hex(k@) && p@ == derived_pubkey_hex(k@) && valid_point_hex(p@)
                && dlog_unique(base_mul_of(secret_nat(k@))),
            None => !valid_scalar_hex(k@),
        },
{
    match SecretKey::from_hex(k) {
        Some(sk) => {
            let p = PublicKey::from_secret_key(&sk);
            let out = p.to_hex();
            proof {
                crate::hex::lemma_hex_round_trip(p@);
            }
            Some(out)
        },
        None => None,
    }
}

/// What `sign` reports: either the key hex was invalid and the envelope
/// says so, or a signature of the message digest under some fresh nonce.
pub open spec fn sign_post(res: SignResult, k: Seq<char>, msg: Seq<char>) -> bool {
    if !valid_scalar_hex(k) {
        sign_failed(res, "Invalid private key"@)
    } else {
        res.error@ == Seq::<char>::empty() && exists|rn: int, sb: Seq<u8>|
            0 <= rn < group_order() && #[trigger] signed_ok(
                res,
                secret_nat(k),
                rn,
                digest_of(msg),
                sb,
            )
    }
}

/// Generate a Schnorr signature of the message using the given secret key
/// and a fresh random nonce.
pub fn sign(private_key: &str, msg: &str) -> (r: SignResult)
    ensures
        sign_post(r, private_key@, msg@),
{
    let mut result = SignResult::default();
    let k = match SecretKey::from_hex(private_key) {
        Some(k) => k,
        None => {
            result.error = String::from_str("Invalid private key");
            return result;
        },
    };
    sign_message_with_key(&k, msg, None, &mut result);
    proof {
        let (rnw, sbw): (int, Seq<u8>) = choose|rn: int, sb: Seq<u8>|
            0 <= rn < group_order() && #[trigger] signed_ok(
                result,
                le_nat(k@) as int,
                rn,
                digest_of(msg@),
                sb,
            );
        assert(signed_ok(result, secret_nat(private_key@), rnw, digest_of(msg@), sbw));
    }
    result
}

/// What `sign_challenge_with_nonce` reports. Validation is ordered and
/// short-circuiting: secret key hex, then nonce hex, then challenge hex,
/// each failure with its own message; a well-formed challenge that is not
/// exactly 32 bytes makes the signing step itself fail. On success the
/// envelope holds the signature of the decoded challenge under exactly the
/// supplied nonce.
pub open spec fn sign_challenge_post(res: SignResult, k: Seq<char>, nonce: Seq<char>, c: Seq<char>) -> bool {
    if !valid_scalar_hex(k) {
        sign_failed(res, "Invalid private key"@)
    } else if !valid_scalar_hex(nonce) {
        sign_failed(res, "Invalid private nonce"@)
    } else if !is_hex_str(c) {
        sign_failed(res, "Challenge was not valid HEX"@)
    } else if c.len() != 64 {
        sign_failed(res, "Could not create signature. An invalid challenge was provided"@)
    } else {
        res.error@ == Seq::<char>::empty() && exists|sb: Seq<u8>| #[trigger] signed_ok(
            res,
            secret_nat(k),
            secret_nat(nonce),
            hex_decode_spec(c),
            sb,
        )
    }
}

/// Generate a Schnorr signature of a challenge that has already been
/// hashed, using the given secret key and the given secret nonce. Nonces
/// must never be reused across different challenges: this entry point does
/// not and cannot check that, and reuse leaks the secret key.
pub fn sign_challenge_with_nonce(private_key: &str, private_nonce: &str, challenge_as_hex: &str) -> (r: SignResult)
    ensures
        sign_challenge_post(r, private_key@, private_nonce@, challenge_as_hex@),
{
    let mut result = SignResult::default();
    let k = match SecretKey::from_hex(private_key) {
        Some(k) => k,
        None => {
            result.error = String::from_str("Invalid private key");
            return result;
        },
    };
    let nonce = match SecretKey::from_hex(private_nonce) {
        Some(n) => n,
        None => {
            result.error = String::from_str("Invalid private nonce");
            return result;
        },
    };
    let e = match crate::hex::hex_decode(challenge_as_hex) {
        Some(e) => e,
        None => {
            result.error = String::from_str("Challenge was not valid HEX");
            return result;
        },
    };
    sign_with_key(&k, e.as_slice(), Some(&nonce), &mut result);
    proof {
        if e@.len() == 32 {
            let (rnw, sbw): (int, Seq<u8>) = choose|rn: int, sb: Seq<u8>|
                0 <= rn < group_order() && #[trigger] signed_ok(
                    result,
                    le_nat(k@) as int,
                    rn,
                    e@,
                    sb,
                ) && rn == le_nat(nonce@);
            assert(signed_ok(
                result,
                secret_nat(private_key@),
                secret_nat(private_nonce@),
                hex_decode_spec(challenge_as_hex@),
                sbw,
            ));
        }
    }
    result
}

/// What `check_signature` reports. Decoding is ordered and
/// short-circuiting — nonce point, public key point, signature scalar —
/// and a decode failure yields `result == false` with a value-specific
/// error. When all three decode, the error is empty and the result is the
/// outcome of the verification equation for the digest of the message: a
/// mathematically invalid signature is a normal `false`, not an error.
pub open spec fn check_post(vr: SignatureVerifyResult, pn: Seq<char>, sg: Seq<char>, pk: Seq<char>, m: Seq<char>) -> bool {
    if !valid_point_hex(pn) {
        vr.result == false && vr.error@ == pn + " is not a valid public nonce"@
    } else if !valid_point_hex(pk) {
        vr.result == false && vr.error@ == pk + " is not a valid public key"@
    } else if !valid_scalar_hex(sg) {
        vr.result == false && vr.error@ == sg + " is not a valid hex representation of a signature"@
    } else {
        vr.error@ == Seq::<char>::empty() && vr.result == verify_ok(
            hex_decode_spec(pn),
            hex_decode_spec(pk),
            hex_decode_spec(sg),
            digest_of(m),
        )
    }
}

/// Check the validity of a Schnorr signature `(pub_nonce, signature)` on
/// the digest of `msg` under the public key `pub_key`, all hex encoded.
pub fn check_signature(pub_nonce: &str, signature: &str, pub_key: &str, msg: &str) -> (r: SignatureVerifyResult)
    ensures
        check_post(r, pub_nonce@, signature@, pub_key@, msg@),
{
    let mut result = SignatureVerifyResult { result: false, error: String::new() };

    let big_r = match PublicKey::from_hex(pub_nonce) {
        Some(p) => p,
        None => {
            result.error = String::from_str(pub_nonce).concat(" is not a valid public nonce");
            return result;
        },
    };
    let p = match PublicKey::from_hex(pub_key) {
        Some(p) => p,
        None => {
            result.error = String::from_str(pub_key).concat(" is not a valid public key");
            return result;
        },
    };
    let s = match SecretKey::from_hex(signature) {
        Some(s) => s,
        None => {
            result.error = String::from_str(signature).concat(
                " is not a valid hex representation of a signature",
            );
            return result;
        },
    };
    let e = digest_message(msg);
    let e_s = scalar_reduce(e.as_slice());
    let ghost kn: int = choose|k: int| 0 <= k < group_order() && p@ == #[trigger] base_mul_of(k);
    let ghost rn: int = choose|k: int|
        0 <= k < group_order() && big_r@ == #[trigger] base_mul_of(k);
    let ghost ell: int = group_order() as int;
    let e_p = point_mul(e_s.as_slice(), p.bytes());
    proof {
        lemma_mod_bound(le_nat(e_s@) as int * kn, ell);
        assert(e_p@ == base_mul_of((le_nat(e_s@) as int * kn) % ell));
        assert(is_valid_point(e_p@));
    }
    let rhs = point_add(big_r.bytes(), e_p.as_slice());
    let lhs = point_base_mul(s.bytes());
    let ok = bytes_eq(lhs.as_slice(), rhs.as_slice());
    result.result = ok;
    proof {
        let ev = le_nat(e_s@) as int;
        let sv = le_nat(s@) as int;
        lemma_add_mod_noop_right(rn, ev * kn, ell);
        assert(rhs@ == base_mul_of((rn + ev * kn) % ell));
        assert(lhs@ == base_mul_of(sv));
        let bigr_b = hex_decode_spec(pub_nonce@);
        let pk_b = hex_decode_spec(pub_key@);
        let sg_b = hex_decode_spec(signature@);
        if ok {
            assert((rn + ev * kn) % ell == sv);
            assert(verify_ok(bigr_b, pk_b, sg_b, digest_of(msg@)));
        } else {
            if verify_ok(bigr_b, pk_b, sg_b, digest_of(msg@)) {
                let (rn2, kn2): (int, int) = choose|rn2: int, kn2: int|
                    0 <= rn2 < group_order() && 0 <= kn2 < group_order() && bigr_b
                        == #[trigger] base_mul_of(rn2) && pk_b == #[trigger] base_mul_of(kn2)
                        && le_nat(sg_b) == sig_scalar(kn2, rn2, digest_of(msg@));
                assert(rn2 == rn && kn2 == kn);
                assert(lhs@ == rhs@);
                assert(false);
            }
        }
    }
    result
}

} // verus!
