//! Key material, held as canonical byte encodings: a secret key is a
//! canonical scalar, a public key the canonical encoding of a group element.
use crate::curve::{point_base_mul, point_check, scalar_is_canonical};
use crate::hex::{hex_decode, hex_decode_spec, hex_encode, hex_encode_spec, is_hex_str};
use crate::model::{base_mul_of, dlog_unique, group_order, is_canonical_scalar, is_valid_point, le_nat};
use vstd::prelude::*;

verus! {

/// A hex string that decodes to the canonical encoding of a scalar.
pub open spec fn valid_scalar_hex(s: Seq<char>) -> bool {
    is_hex_str(s) && s.len() == 64 && le_nat(hex_decode_spec(s)) < group_order()
}

/// A hex string that decodes to the canonical encoding of a group element.
pub open spec fn valid_point_hex(s: Seq<char>) -> bool {
    is_hex_str(s) && s.len() == 64 && is_valid_point(hex_decode_spec(s))
}

/// A secret scalar, materialized transiently from hex for one call.
pub struct SecretKey {
    bytes: Vec<u8>,
}

impl View for SecretKey {
    type V = Seq<u8>;

    closed spec fn view(&self) -> Seq<u8> {
        self.bytes@
    }
}

impl SecretKey {
    pub open spec fn wf(&self) -> bool {
        is_canonical_scalar(self@)
    }

    /// Decode a secret key from hex; `None` exactly when the string is not
    /// the canonical hex form of a scalar.
    pub fn from_hex(s: &str) -> (r: Option<SecretKey>)
        ensures
            match r {
                Some(k) => valid_scalar_hex(s@) && k@ == hex_decode_spec(s@) && k.wf(),
                None => !valid_scalar_hex(s@),
            },
    {
        match hex_decode(s) {
            Some(v) => {
                if v.len() == 32 && scalar_is_canonical(v.as_slice()) {
                    Some(SecretKey { bytes: v })
                } else {
                    None
                }
            },
            None => None,
        }
    }

    pub fn to_hex(&self) -> (r: String)
        ensures
            r@ == hex_encode_spec(self@),
    {
        hex_encode(self.bytes.as_slice())
    }

    pub(crate) fn from_canonical_bytes(v: Vec<u8>) -> (r: SecretKey)
        requires
            is_canonical_scalar(v@),
        ensures
            r@ == v@,
            r.wf(),
    {
        SecretKey { bytes: v }
    }

    pub(crate) fn bytes(&self) -> (r: &[u8])
        ensures
            r@ == self@,
    {
        self.bytes.as_slice()
    }
}

/// A group element; derivable deterministically from a secret key.
pub struct PublicKey {
    bytes: Vec<u8>,
}

impl View for PublicKey {
    type V = Seq<u8>;

    closed spec fn view(&self) -> Seq<u8> {
        self.bytes@
    }
}

impl PublicKey {
    pub open spec fn wf(&self) -> bool {
        self@.len() == 32 && is_valid_point(self@)
    }

    /// Decode a public key from hex and check that it encodes a group
    /// element; `None` exactly when either step fails.
    pub fn from_hex(s: &str) -> (r: Option<PublicKey>)
        ensures
            match r {
                Some(p) => valid_point_hex(s@) && p@ == hex_decode_spec(s@) && p.wf()
                    && dlog_unique(p@),
                None => !valid_point_hex(s@),
            },
    {
        match hex_decode(s) {
            Some(v) => {
                if point_check(v.as_slice()) {
                    Some(PublicKey { bytes: v })
                } else {
                    None
                }
            },
            None => None,
        }
    }

    /// The public key of a secret key: the secret scalar times the base
    /// point. A pure function of the secret key.
    pub fn from_secret_key(k: &SecretKey) -> (r: PublicKey)
        requires
            k.wf(),
        ensures
            r@ == base_mul_of(le_nat(k@) as int),
            r.wf(),
            dlog_unique(r@),
    {
        let bytes = point_base_mul(k.bytes.as_slice());
        proof {
            assert(is_valid_point(bytes@));
        }
        PublicKey { bytes }
    }

    pub fn to_hex(&self) -> (r: String)
        ensures
            r@ == hex_encode_spec(self@),
    {
        hex_encode(self.bytes.as_slice())
    }

    pub(crate) fn bytes(&self) -> (r: &[u8])
        ensures
            r@ == self@,
    {
        self.bytes.as_slice()
    }
}

} // verus!
