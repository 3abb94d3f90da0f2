//! Properties that relate the service's operations to each other, proved
//! from their contracts.
use crate::hex::{hex_decode_spec, hex_encode_spec, is_hex_str, lemma_hex_round_trip};
use crate::keys::{valid_point_hex, valid_scalar_hex};
use crate::model::{base_mul_of, digest_of, dlog_unique, group_order, is_canonical_scalar, is_valid_point, le_nat, lemma_le_nat_injective};
use crate::schnorr::{check_post, derived_pubkey_hex, secret_nat, sig_scalar, sign_challenge_post, signed_ok, verify_ok, SignResult, SignatureVerifyResult};
use vstd::prelude::*;

verus! {

/// Public-key derivation through the hex boundary agrees with derivation
/// from the key itself: for any canonical secret key bytes `kb`, the hex of
/// `kb` is a valid secret key string and the derived public key is the hex
/// of `le_nat(kb)` times the base point. Together with the exact
/// postcondition of `pubkey_from_secret` — whose result is the function
/// `derived_pubkey_hex` of the input alone — this also makes derivation
/// deterministic.
pub proof fn lemma_pubkey_derivation_agrees(kb: Seq<u8>)
    requires
        is_canonical_scalar(kb),
    ensures
        valid_scalar_hex(hex_encode_spec(kb)),
        derived_pubkey_hex(hex_encode_spec(kb)) == hex_encode_spec(
            base_mul_of(le_nat(kb) as int),
        ),
{
    lemma_hex_round_trip(kb);
}

/// Sign-then-verify round trip: a signature envelope produced for secret
/// key hex `k` (so `signed_ok` holds of it, as the postconditions of `sign`
/// and of `sign_challenge_with_nonce` state), handed to `check_signature`
/// together with the public key string derived from `k` and the same
/// challenge bytes `e`, passes verification: the result is `true` and the
/// error empty.
pub proof fn lemma_sign_then_verify(vr: SignatureVerifyResult, k: Seq<char>, e: Seq<u8>, rn: int, sb: Seq<u8>, m: Seq<char>)
    requires
        valid_scalar_hex(k),
        0 <= rn < group_order(),
        is_canonical_scalar(sb),
        le_nat(sb) == sig_scalar(secret_nat(k), rn, e),
        base_mul_of(rn).len() == 32,
        valid_point_hex(derived_pubkey_hex(k)),
        e == digest_of(m),
        check_post(vr, hex_encode_spec(base_mul_of(rn)), hex_encode_spec(sb), derived_pubkey_hex(k), m),
    ensures
        vr.result == true,
        vr.error@ == Seq::<char>::empty(),
{
    lemma_hex_round_trip(base_mul_of(rn));
    lemma_hex_round_trip(sb);
    lemma_hex_round_trip(base_mul_of(secret_nat(k)));
    assert(is_valid_point(base_mul_of(rn)));
    assert(valid_point_hex(hex_encode_spec(base_mul_of(rn))));
    assert(valid_scalar_hex(hex_encode_spec(sb)));
    assert(verify_ok(base_mul_of(rn), base_mul_of(secret_nat(k)), sb, e));
}

/// Altering a signature makes verification fail: for a fixed nonce point,
/// public key and challenge, at most one canonical signature scalar
/// satisfies the verification equation, so any other canonical scalar — in
/// particular one obtained by flipping a hex digit of the original — is
/// rejected with `result == false` (and, the inputs being well-formed, an
/// empty error, per the postcondition of `check_signature`).
pub proof fn lemma_altered_signature_fails(bigr: Seq<u8>, p: Seq<u8>, s1: Seq<u8>, s2: Seq<u8>, e: Seq<u8>)
    requires
        is_canonical_scalar(s1),
        is_canonical_scalar(s2),
        s1 != s2,
        dlog_unique(bigr),
        dlog_unique(p),
        verify_ok(bigr, p, s1, e),
    ensures
        !verify_ok(bigr, p, s2, e),
{
    if verify_ok(bigr, p, s2, e) {
        let (rn1, kn1): (int, int) = choose|rn: int, kn: int|
            0 <= rn < group_order() && 0 <= kn < group_order() && bigr == #[trigger] base_mul_of(
                rn,
            ) && p == #[trigger] base_mul_of(kn) && le_nat(s1) == sig_scalar(kn, rn, e);
        let (rn2, kn2): (int, int) = choose|rn: int, kn: int|
            0 <= rn < group_order() && 0 <= kn < group_order() && bigr == #[trigger] base_mul_of(
                rn,
            ) && p == #[trigger] base_mul_of(kn) && le_nat(s2) == sig_scalar(kn, rn, e);
        assert(rn1 == rn2 && kn1 == kn2);
        lemma_le_nat_injective(s1, s2);
        assert(false);
    }
}

/// Changing one hex digit of a verifying signature string to a digit of a
/// different value — while the string remains the hex of a canonical
/// scalar — makes `check_signature` reject it as cryptographically
/// invalid: `result == false` with an empty error, not a malformed-input
/// error. (A flip that keeps the digit's value, such as a case change, or
/// one that leaves the canonical range, falls outside this statement.)
pub proof fn lemma_flipped_signature_digit_fails(vr: SignatureVerifyResult, pn: Seq<char>, pk: Seq<char>, s1: Seq<char>, s2: Seq<char>, i: int, m: Seq<char>)
    requires
        valid_point_hex(pn),
        valid_point_hex(pk),
        dlog_unique(hex_decode_spec(pn)),
        dlog_unique(hex_decode_spec(pk)),
        valid_scalar_hex(s1),
        valid_scalar_hex(s2),
        0 <= i < s1.len(),
        crate::hex::hex_val(s1[i]) != crate::hex::hex_val(s2[i]),
        verify_ok(hex_decode_spec(pn), hex_decode_spec(pk), hex_decode_spec(s1), digest_of(m)),
        check_post(vr, pn, s2, pk, m),
    ensures
        vr.result == false,
        vr.error@ == Seq::<char>::empty(),
{
    crate::hex::lemma_hex_decode_differs(s1, s2, i);
    lemma_altered_signature_fails(
        hex_decode_spec(pn),
        hex_decode_spec(pk),
        hex_decode_spec(s1),
        hex_decode_spec(s2),
        digest_of(m),
    );
}

/// The service does not block nonce reuse: for one secret key, one nonce
/// and two well-formed 32-byte challenges, both challenge-signing calls
/// succeed, publish the same public nonce, and each signature satisfies the
/// verification equation for its own challenge. (That the two signature
/// scalars differ whenever the challenges differ rests on the primality of
/// the group order and is not proved here.)
pub proof fn lemma_nonce_reuse_not_blocked(r1: SignResult, r2: SignResult, k: Seq<char>, nonce: Seq<char>, c1: Seq<char>, c2: Seq<char>)
    requires
        valid_scalar_hex(k),
        valid_scalar_hex(nonce),
        is_hex_str(c1) && c1.len() == 64,
        is_hex_str(c2) && c2.len() == 64,
        sign_challenge_post(r1, k, nonce, c1),
        sign_challenge_post(r2, k, nonce, c2),
    ensures
        r1.error@ == Seq::<char>::empty(),
        r2.error@ == Seq::<char>::empty(),
        r1.public_nonce matches Some(p1) && p1@ == hex_encode_spec(
            base_mul_of(secret_nat(nonce)),
        ),
        r2.public_nonce matches Some(p2) && p2@ == hex_encode_spec(
            base_mul_of(secret_nat(nonce)),
        ),
        exists|sb: Seq<u8>|
            (#[trigger] is_canonical_scalar(sb)) && (r1.signature matches Some(g1) && g1@
                == hex_encode_spec(sb)) && verify_ok(
                base_mul_of(secret_nat(nonce)),
                base_mul_of(secret_nat(k)),
                sb,
                hex_decode_spec(c1),
            ),
        exists|sb: Seq<u8>|
            (#[trigger] is_canonical_scalar(sb)) && (r2.signature matches Some(g2) && g2@
                == hex_encode_spec(sb)) && verify_ok(
                base_mul_of(secret_nat(nonce)),
                base_mul_of(secret_nat(k)),
                sb,
                hex_decode_spec(c2),
            ),
{
    let s1: Seq<u8> = choose|sb: Seq<u8>| #[trigger] signed_ok(
        r1,
        secret_nat(k),
        secret_nat(nonce),
        hex_decode_spec(c1),
        sb,
    );
    let s2: Seq<u8> = choose|sb: Seq<u8>| #[trigger] signed_ok(
        r2,
        secret_nat(k),
        secret_nat(nonce),
        hex_decode_spec(c2),
        sb,
    );
    assert(verify_ok(base_mul_of(secret_nat(nonce)), base_mul_of(secret_nat(k)), s1, hex_decode_spec(c1)));
    assert(verify_ok(base_mul_of(secret_nat(nonce)), base_mul_of(secret_nat(k)), s2, hex_decode_spec(c2)));
}

} // verus!
