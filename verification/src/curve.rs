//! Trusted boundary to the ristretto255 group arithmetic and to the system
//! randomness source. Each function wraps one operation of the outside curve
//! library; everything it promises is stated over the byte-level model of
//! `crate::model`.
use crate::model::{base_mul_of, dlog_unique, group_order, is_canonical_scalar, is_valid_point, le_nat};
use curve25519_dalek::ristretto::{CompressedRistretto, RistrettoPoint};
use curve25519_dalek::scalar::Scalar;
use vstd::prelude::*;

verus! {

/// Relies on `rand::rngs::OsRng` and `Scalar::random`: a scalar drawn from
/// the secure system RNG and reduced modulo the group order. Nothing more is
/// promised of the outcome than that it is a canonical scalar.
#[verifier::external_body]
pub(crate) fn random_scalar() -> (r: Vec<u8>)
    ensures
        is_canonical_scalar(r@),
{
    let mut rng = rand::rngs::OsRng;
    Scalar::random(&mut rng).to_bytes().to_vec()
}

/// Relies on `Scalar::from_bytes_mod_order`: reduces a 256-bit little-endian
/// integer modulo the group order; `Scalar::to_bytes` returns the canonical
/// encoding of the reduced value.
#[verifier::external_body]
pub(crate) fn scalar_reduce(b: &[u8]) -> (r: Vec<u8>)
    requires
        b@.len() == 32,
    ensures
        is_canonical_scalar(r@),
        le_nat(r@) == le_nat(b@) % group_order(),
{
    Scalar::from_bytes_mod_order(b.try_into().unwrap()).to_bytes().to_vec()
}

/// Relies on `Scalar::from_canonical_bytes`: succeeds exactly when the 32
/// bytes hold a value below the group order.
#[verifier::external_body]
pub(crate) fn scalar_is_canonical(b: &[u8]) -> (r: bool)
    requires
        b@.len() == 32,
    ensures
        r == (le_nat(b@) < group_order()),
{
    Scalar::from_canonical_bytes(b.try_into().unwrap()).is_some().into()
}

/// Relies on `Scalar` addition: arithmetic on canonical scalars is carried
/// out modulo the group order, and the result is again canonical.
#[verifier::external_body]
pub(crate) fn scalar_add_mod(a: &[u8], b: &[u8]) -> (r: Vec<u8>)
    requires
        is_canonical_scalar(a@),
        is_canonical_scalar(b@),
    ensures
        is_canonical_scalar(r@),
        le_nat(r@) == (le_nat(a@) + le_nat(b@)) % group_order(),
{
    let x: Scalar = Option::from(Scalar::from_canonical_bytes(a.try_into().unwrap())).unwrap();
    let y: Scalar = Option::from(Scalar::from_canonical_bytes(b.try_into().unwrap())).unwrap();
    (x + y).to_bytes().to_vec()
}

/// Relies on `Scalar` multiplication: arithmetic on canonical scalars is
/// carried out modulo the group order, and the result is again canonical.
#[verifier::external_body]
pub(crate) fn scalar_mul_mod(a: &[u8], b: &[u8]) -> (r: Vec<u8>)
    requires
        is_canonical_scalar(a@),
        is_canonical_scalar(b@),
    ensures
        is_canonical_scalar(r@),
        le_nat(r@) == (le_nat(a@) * le_nat(b@)) % group_order(),
{
    let x: Scalar = Option::from(Scalar::from_canonical_bytes(a.try_into().unwrap())).unwrap();
    let y: Scalar = Option::from(Scalar::from_canonical_bytes(b.try_into().unwrap())).unwrap();
    (x * y).to_bytes().to_vec()
}

/// Relies on `RistrettoPoint::mul_base` and `compress`: the canonical
/// encoding of the scalar multiple of the base point. The base point
/// generates the prime-order group, so distinct reduced scalars give
/// distinct encodings.
#[verifier::external_body]
pub(crate) fn point_base_mul(s: &[u8]) -> (r: Vec<u8>)
    requires
        is_canonical_scalar(s@),
    ensures
        r@ == base_mul_of(le_nat(s@) as int),
        r@.len() == 32,
        dlog_unique(r@),
{
    let x: Scalar = Option::from(Scalar::from_canonical_bytes(s.try_into().unwrap())).unwrap();
    RistrettoPoint::mul_base(&x).compress().to_bytes().to_vec()
}

/// Relies on `CompressedRistretto::from_slice` and `decompress`:
/// decompression succeeds exactly on the canonical encoding of a group
/// element, and every group element is a multiple of the base point.
#[verifier::external_body]
pub(crate) fn point_check(b: &[u8]) -> (r: bool)
    ensures
        r == is_valid_point(b@),
        r ==> b@.len() == 32,
        r ==> dlog_unique(b@),
{
    match CompressedRistretto::from_slice(b) {
        Ok(c) => c.decompress().is_some(),
        Err(_) => false,
    }
}

/// Relies on ristretto255 scalar-point multiplication: multiplying the
/// `k`-th multiple of the base point by a canonical scalar `e` yields the
/// `(e * k)`-th multiple, reduced modulo the group order.
#[verifier::external_body]
pub(crate) fn point_mul(e: &[u8], p: &[u8]) -> (r: Vec<u8>)
    requires
        is_canonical_scalar(e@),
        p@.len() == 32,
        is_valid_point(p@),
    ensures
        r@.len() == 32,
        forall|k: int|
            0 <= k < group_order() && p@ == #[trigger] base_mul_of(k) ==> r@ == base_mul_of(
                (le_nat(e@) as int * k) % (group_order() as int),
            ),
{
    let x: Scalar = Option::from(Scalar::from_canonical_bytes(e.try_into().unwrap())).unwrap();
    let pt = CompressedRistretto::from_slice(p).unwrap().decompress().unwrap();
    (x * pt).compress().to_bytes().to_vec()
}

/// Relies on ristretto255 point addition: adding the `a`-th and `b`-th
/// multiples of the base point yields the `(a + b)`-th multiple, reduced
/// modulo the group order.
#[verifier::external_body]
pub(crate) fn point_add(p: &[u8], q: &[u8]) -> (r: Vec<u8>)
    requires
        p@.len() == 32,
        is_valid_point(p@),
        q@.len() == 32,
        is_valid_point(q@),
    ensures
        r@.len() == 32,
        forall|a: int, b: int|
            0 <= a < group_order() && 0 <= b < group_order() && p@ == #[trigger] base_mul_of(a)
                && q@ == #[trigger] base_mul_of(b) ==> r@ == base_mul_of(
                (a + b) % (group_order() as int),
            ),
{
    let x = CompressedRistretto::from_slice(p).unwrap().decompress().unwrap();
    let y = CompressedRistretto::from_slice(q).unwrap().decompress().unwrap();
    (x + y).compress().to_bytes().to_vec()
}

} // verus!
