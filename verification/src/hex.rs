//! Hex codec for the string boundary: canonical byte encodings cross the
//! boundary as hex strings. Decoding accepts both letter cases; encoding
//! emits lowercase.
use vstd::arithmetic::div_mod::lemma_fundamental_div_mod;
use vstd::prelude::*;

verus! {

pub open spec fn is_hex_digit(c: char) -> bool {
    let u = c as u32;
    (48 <= u && u <= 57) || (97 <= u && u <= 102) || (65 <= u && u <= 70)
}

/// The value of one hex digit (meaningful only when `is_hex_digit(c)`).
pub open spec fn hex_val(c: char) -> nat {
    let u = c as u32;
    if 48 <= u && u <= 57 {
        (u - 48) as nat
    } else if 97 <= u && u <= 102 {
        (u - 87) as nat
    } else {
        (u - 55) as nat
    }
}

/// A well-formed hex string: even length, every character a hex digit.
pub open spec fn is_hex_str(s: Seq<char>) -> bool {
    s.len() % 2 == 0 && forall|i: int| 0 <= i < s.len() ==> is_hex_digit(#[trigger] s[i])
}

/// The byte written as the digit pair `hi`, `lo`.
pub open spec fn hex_byte(hi: char, lo: char) -> u8 {
    (hex_val(hi) * 16 + hex_val(lo)) as u8
}

/// The bytes a well-formed hex string stands for.
pub open spec fn hex_decode_spec(s: Seq<char>) -> Seq<u8> {
    Seq::new(s.len() / 2, |i: int| hex_byte(s[2 * i], s[2 * i + 1]))
}

/// The lowercase digit for a value below 16.
pub open spec fn hex_digit_char(n: int) -> char {
    if n == 0 {
        '0'
    } else if n == 1 {
        '1'
    } else if n == 2 {
        '2'
    } else if n == 3 {
        '3'
    } else if n == 4 {
        '4'
    } else if n == 5 {
        '5'
    } else if n == 6 {
        '6'
    } else if n == 7 {
        '7'
    } else if n == 8 {
        '8'
    } else if n == 9 {
        '9'
    } else if n == 10 {
        'a'
    } else if n == 11 {
        'b'
    } else if n == 12 {
        'c'
    } else if n == 13 {
        'd'
    } else if n == 14 {
        'e'
    } else {
        'f'
    }
}

/// The lowercase hex string that stands for the given bytes.
pub open spec fn hex_encode_spec(b: Seq<u8>) -> Seq<char> {
    Seq::new(
        b.len() * 2,
        |i: int|
            if i % 2 == 0 {
                hex_digit_char(b[i / 2] as int / 16)
            } else {
                hex_digit_char(b[i / 2] as int % 16)
            },
    )
}

fn hex_val_exec(c: char) -> (r: Option<u8>)
    ensures
        match r {
            Some(v) => is_hex_digit(c) && v as nat == hex_val(c),
            None => !is_hex_digit(c),
        },
{
    let u = c as u32;
    if 48 <= u && u <= 57 {
        Some((u - 48) as u8)
    } else if 97 <= u && u <= 102 {
        Some((u - 87) as u8)
    } else if 65 <= u && u <= 70 {
        Some((u - 55) as u8)
    } else {
        None
    }
}

fn hex_digit_exec(n: u8) -> (r: char)
    requires
        n < 16,
    ensures
        r == hex_digit_char(n as int),
{
    if n == 0 {
        '0'
    } else if n == 1 {
        '1'
    } else if n == 2 {
        '2'
    } else if n == 3 {
        '3'
    } else if n == 4 {
        '4'
    } else if n == 5 {
        '5'
    } else if n == 6 {
        '6'
    } else if n == 7 {
        '7'
    } else if n == 8 {
        '8'
    } else if n == 9 {
        '9'
    } else if n == 10 {
        'a'
    } else if n == 11 {
        'b'
    } else if n == 12 {
        'c'
    } else if n == 13 {
        'd'
    } else if n == 14 {
        'e'
    } else {
        'f'
    }
}

/// Relies on `String::push`: appends one character to the string.
#[verifier::external_body]
fn push_char(s: &mut String, c: char)
    ensures
        final(s)@ == old(s)@.push(c),
{
    s.push(c)
}

/// Decode a hex string; `None` exactly when it is not well-formed hex.
pub fn hex_decode(s: &str) -> (r: Option<Vec<u8>>)
    ensures
        match r {
            Some(v) => is_hex_str(s@) && v@ == hex_decode_spec(s@),
            None => !is_hex_str(s@),
        },
{
    let n = s.unicode_len();
    if n % 2 != 0 {
        return None;
    }
    let mut out: Vec<u8> = Vec::new();
    let mut i: usize = 0;
    while i < n
        invariant
            n == s@.len(),
            n % 2 == 0,
            i % 2 == 0,
            i <= n,
            out@.len() == i / 2,
            forall|j: int| 0 <= j < i ==> is_hex_digit(#[trigger] s@[j]),
            forall|j: int| 0 <= j < i / 2 ==> out@[j] == hex_byte(s@[2 * j], s@[2 * j + 1]),
        decreases n - i,
    {
        let hi = match hex_val_exec(s.get_char(i)) {
            Some(v) => v,
            None => {
                return None;
            },
        };
        let lo = match hex_val_exec(s.get_char(i + 1)) {
            Some(v) => v,
            None => {
                return None;
            },
        };
        out.push(hi * 16 + lo);
        i = i + 2;
    }
    proof {
        assert(out@ =~= hex_decode_spec(s@));
    }
    Some(out)
}

/// Encode bytes as a lowercase hex string.
pub fn hex_encode(b: &[u8]) -> (r: String)
    ensures
        r@ == hex_encode_spec(b@),
{
    let n = b.len();
    let mut out = String::new();
    let mut i: usize = 0;
    while i < n
        invariant
            n == b@.len(),
            i <= n,
            out@ =~= hex_encode_spec(b@.subrange(0, i as int)),
        decreases n - i,
    {
        let hi = b[i] / 16;
        let lo = b[i] % 16;
        push_char(&mut out, hex_digit_exec(hi));
        push_char(&mut out, hex_digit_exec(lo));
        proof {
            assert(out@ =~= hex_encode_spec(b@.subrange(0, i + 1 as int)));
        }
        i = i + 1;
    }
    proof {
        assert(b@.subrange(0, n as int) =~= b@);
    }
    out
}

/// Every hex digit's value is recovered by `hex_val`.
proof fn lemma_digit_round_trip(n: int)
    requires
        0 <= n < 16,
    ensures
        is_hex_digit(hex_digit_char(n)),
        hex_val(hex_digit_char(n)) == n,
{
}

/// The value of a hex digit is below 16.
pub proof fn lemma_hex_val_bound(c: char)
    requires
        is_hex_digit(c),
    ensures
        hex_val(c) < 16,
{
}

/// Two well-formed hex strings of equal length that disagree in the value
/// of the digit at some position stand for different byte sequences.
pub proof fn lemma_hex_decode_differs(s1: Seq<char>, s2: Seq<char>, i: int)
    requires
        is_hex_str(s1),
        is_hex_str(s2),
        s1.len() == s2.len(),
        0 <= i < s1.len(),
        hex_val(s1[i]) != hex_val(s2[i]),
    ensures
        hex_decode_spec(s1) != hex_decode_spec(s2),
{
    let j = i / 2;
    lemma_hex_val_bound(s1[2 * j]);
    lemma_hex_val_bound(s1[2 * j + 1]);
    lemma_hex_val_bound(s2[2 * j]);
    lemma_hex_val_bound(s2[2 * j + 1]);
    assert(hex_decode_spec(s1)[j] == hex_byte(s1[2 * j], s1[2 * j + 1]));
    assert(hex_decode_spec(s2)[j] == hex_byte(s2[2 * j], s2[2 * j + 1]));
    assert(hex_byte(s1[2 * j], s1[2 * j + 1]) != hex_byte(s2[2 * j], s2[2 * j + 1]));
}

/// Encoding bytes always yields a well-formed hex string, and decoding it
/// gives the bytes back.
pub proof fn lemma_hex_round_trip(b: Seq<u8>)
    ensures
        is_hex_str(hex_encode_spec(b)),
        hex_encode_spec(b).len() == 2 * b.len(),
        hex_decode_spec(hex_encode_spec(b)) == b,
{
    let s = hex_encode_spec(b);
    assert forall|i: int| 0 <= i < s.len() implies is_hex_digit(#[trigger] s[i]) by {
        if i % 2 == 0 {
            lemma_digit_round_trip(b[i / 2] as int / 16);
        } else {
            lemma_digit_round_trip(b[i / 2] as int % 16);
        }
    }
    assert forall|i: int| 0 <= i < b.len() implies hex_decode_spec(s)[i] == b[i] by {
        lemma_digit_round_trip(b[i] as int / 16);
        lemma_digit_round_trip(b[i] as int % 16);
        lemma_fundamental_div_mod(b[i] as int, 16);
    }
    assert(hex_decode_spec(s) =~= b);
}

} // verus!
