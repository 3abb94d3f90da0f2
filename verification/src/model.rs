//! Mathematical model of the curve values that cross this library's
//! boundary: scalars and group elements are identified by their canonical
//! 32-byte little-endian encodings.
use vstd::arithmetic::div_mod::{lemma_fundamental_div_mod, lemma_mod_multiples_vanish, lemma_small_mod};
use vstd::prelude::*;

verus! {

/// Little-endian interpretation of a byte sequence as a natural number.
pub open spec fn le_nat(b: Seq<u8>) -> nat
    decreases b.len(),
{
    if b.len() == 0 {
        0
    } else {
        b[0] as nat + 256 * le_nat(b.subrange(1, b.len() as int))
    }
}

/// The order of the ristretto255 group: 2^252 + 27742317777372353535851937790883648493.
pub open spec fn group_order() -> nat {
    7237005577332262213973186563042994240857116359379907606001950938285454250989nat
}

/// A byte sequence is the canonical encoding of a scalar when it is 32 bytes
/// long and its value is reduced modulo the group order.
pub open spec fn is_canonical_scalar(b: Seq<u8>) -> bool {
    b.len() == 32 && le_nat(b) < group_order()
}

/// The canonical encoding of `k` times the group's base point, for `k` in
/// `[0, group_order())`. What this encoding is on a given `k` is known only
/// to the curve library; the contracts of the trusted curve operations are
/// stated in terms of this name.
pub uninterp spec fn base_mul_of(k: int) -> Seq<u8>;

/// The 32-byte digest that the challenge hasher assigns to a message.
pub uninterp spec fn digest_of(m: Seq<char>) -> Seq<u8>;

/// A byte sequence encodes a group element exactly when it is the canonical
/// encoding of some multiple of the base point (the group has prime order,
/// so the base point generates all of it).
pub open spec fn is_valid_point(b: Seq<u8>) -> bool {
    exists|k: int| 0 <= k < group_order() && b == #[trigger] base_mul_of(k)
}

/// The discrete logarithm of `b` is unique: at most one `k` in
/// `[0, group_order())` encodes to `b`.
pub open spec fn dlog_unique(b: Seq<u8>) -> bool {
    forall|j: int, k: int|
        0 <= j < group_order() && 0 <= k < group_order() && b == #[trigger] base_mul_of(j) && b
            == #[trigger] base_mul_of(k) ==> j == k
}

/// Two equally long byte sequences with the same little-endian value are equal.
pub proof fn lemma_le_nat_injective(a: Seq<u8>, b: Seq<u8>)
    requires
        a.len() == b.len(),
        le_nat(a) == le_nat(b),
    ensures
        a == b,
    decreases a.len(),
{
    if a.len() == 0 {
        assert(a =~= b);
    } else {
        let ta = a.subrange(1, a.len() as int);
        let tb = b.subrange(1, b.len() as int);
        lemma_le_nat_first(a);
        lemma_le_nat_first(b);
        lemma_le_nat_injective(ta, tb);
        assert forall|i: int| 0 <= i < a.len() implies a[i] == b[i] by {
            if i > 0 {
                assert(a[i] == ta[i - 1]);
                assert(b[i] == tb[i - 1]);
            }
        }
        assert(a =~= b);
    }
}

/// The first byte and the tail of a non-empty sequence are recovered from its
/// little-endian value by division and remainder.
pub proof fn lemma_le_nat_first(a: Seq<u8>)
    requires
        a.len() > 0,
    ensures
        a[0] == le_nat(a) % 256,
        le_nat(a.subrange(1, a.len() as int)) == le_nat(a) / 256,
    decreases a.len(),
{
    let t = le_nat(a.subrange(1, a.len() as int));
    lemma_mod_multiples_vanish(t as int, a[0] as int, 256);
    lemma_small_mod(a[0] as nat, 256);
    lemma_fundamental_div_mod(le_nat(a) as int, 256);
}

} // verus!
