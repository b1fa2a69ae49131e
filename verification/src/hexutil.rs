//! Hex and decimal parsing of user input, over ASCII byte strings.
//!
//! Malformed hex and wrong-length addresses are rejected here, at argument
//! time, before any handler or network call runs. All functions work on the
//! raw ASCII bytes of the argument so that the contracts speak directly about
//! the bytes the user typed.

use vstd::prelude::*;
use crate::errors::CliError;

verus! {

/// Is `b` the ASCII code of a hex digit?
pub open spec fn hex_digit_ok(b: u8) -> bool {
    (48 <= b <= 57) || (97 <= b <= 102) || (65 <= b <= 70)
}

/// Numeric value of a hex digit (0 for non-digits).
pub open spec fn hex_val(b: u8) -> u8 {
    if 48 <= b <= 57 {
        (b - 48) as u8
    } else if 97 <= b <= 102 {
        (b - 87) as u8
    } else if 65 <= b <= 70 {
        (b - 55) as u8
    } else {
        0
    }
}

/// A valid hex string: even length, hex digits throughout.
pub open spec fn hex_ok(s: Seq<u8>) -> bool {
    &&& s.len() % 2 == 0
    &&& forall|i: int| 0 <= i < s.len() ==> hex_digit_ok(#[trigger] s[i])
}

/// The bytes a hex string denotes, two digits per byte, big-endian within
/// the byte.
pub open spec fn hex_decoded(s: Seq<u8>) -> Seq<u8> {
    Seq::new((s.len() / 2) as nat, |i: int| ((hex_val(s[2 * i]) as int) * 16 + hex_val(s[2 * i + 1]) as int) as u8)
}

/// Lower-case ASCII hex digit for a value below 16.
pub open spec fn hex_char(v: u8) -> u8 {
    if v < 10 {
        (48 + v) as u8
    } else {
        (87 + v) as u8
    }
}

/// Lower-case hex encoding of a byte string.
pub open spec fn hex_encoded(b: Seq<u8>) -> Seq<u8> {
    Seq::new(b.len() * 2, |i: int| if i % 2 == 0 {
        hex_char(b[i / 2] >> 4)
    } else {
        hex_char(b[i / 2] & 0xf)
    })
}

/// `s` without a leading lower-case `0x`, if it has one.
pub open spec fn strip_0x(s: Seq<u8>) -> Seq<u8> {
    if s.len() >= 2 && s[0] == 48 && s[1] == 120 {
        s.skip(2)
    } else {
        s
    }
}

fn hex_val_exec(b: u8) -> (r: Option<u8>)
    ensures
        r is Some <==> hex_digit_ok(b),
        r is Some ==> r.unwrap() == hex_val(b) && r.unwrap() < 16,
{
    if 48 <= b && b <= 57 {
        Some(b - 48)
    } else if 97 <= b && b <= 102 {
        Some(b - 87)
    } else if 65 <= b && b <= 70 {
        Some(b - 55)
    } else {
        None
    }
}

fn hex_char_exec(v: u8) -> (r: u8)
    requires
        v < 16,
    ensures
        r == hex_char(v),
{
    if v < 10 {
        48 + v
    } else {
        87 + v
    }
}

/// Decode a hex string (without prefix) into its bytes, rejecting odd
/// lengths and non-digits.
pub fn hex_decode(s: &[u8]) -> (r: Result<Vec<u8>, CliError>)
    ensures
        r is Ok <==> hex_ok(s@),
        r is Ok ==> r.unwrap()@ == hex_decoded(s@),
        r is Err ==> r.unwrap_err() matches CliError::InvalidInput(_),
{
    if s.len() % 2 != 0 {
        return Err(CliError::InvalidInput("hex string has odd length".to_owned()));
    }
    let pairs = s.len() / 2;
    let mut out: Vec<u8> = Vec::new();
    for i in 0..pairs
        invariant
            pairs == s@.len() / 2,
            s@.len() % 2 == 0,
            s@.len() <= usize::MAX,
            out@ =~= hex_decoded(s@).take(i as int),
            forall|j: int| 0 <= j < 2 * i ==> hex_digit_ok(#[trigger] s@[j]),
    {
        let hi = match hex_val_exec(s[2 * i]) {
            Some(v) => v,
            None => {
                return Err(CliError::InvalidInput("invalid hex digit".to_owned()));
            },
        };
        let lo = match hex_val_exec(s[2 * i + 1]) {
            Some(v) => v,
            None => {
                return Err(CliError::InvalidInput("invalid hex digit".to_owned()));
            },
        };
        out.push(hi * 16 + lo);
        assert(out@ =~= hex_decoded(s@).take(i + 1));
    }
    assert(hex_decoded(s@).take(pairs as int) =~= hex_decoded(s@));
    Ok(out)
}

/// Encode bytes as lower-case hex digits.
pub fn hex_encode(data: &[u8]) -> (r: Vec<u8>)
    ensures
        r@ == hex_encoded(data@),
{
    let mut out: Vec<u8> = Vec::new();
    let n = data.len();
    for i in 0..n
        invariant
            n == data@.len(),
            out@ =~= hex_encoded(data@).take(2 * i),
    {
        let b = data[i];
        assert(b >> 4 < 16 && b & 0xf < 16) by (bit_vector);
        out.push(hex_char_exec(b >> 4));
        out.push(hex_char_exec(b & 0xf));
        assert(out@ =~= hex_encoded(data@).take(2 * (i + 1)));
    }
    assert(hex_encoded(data@).take(2 * n) =~= hex_encoded(data@));
    out
}

/// Decoding is a left inverse of encoding: the two hex digits written for a
/// byte always read back as that byte.
pub proof fn lemma_hex_round_trip(b: Seq<u8>)
    ensures
        hex_ok(hex_encoded(b)),
        hex_decoded(hex_encoded(b)) =~= b,
{
    assert forall|x: u8| #[trigger] hex_char(x >> 4) == hex_char(x >> 4) implies x >> 4 < 16 && x
        & 0xf < 16 && (x >> 4) * 16 + (x & 0xf) == x by {
        assert(x >> 4 < 16 && x & 0xf < 16 && (x >> 4) * 16 + (x & 0xf) == x) by (bit_vector);
    }
    assert forall|i: int| 0 <= i < hex_encoded(b).len() implies hex_digit_ok(
        #[trigger] hex_encoded(b)[i],
    ) by {
        let x = b[i / 2];
        assert(x >> 4 < 16 && x & 0xf < 16) by (bit_vector);
    }
    assert forall|i: int| 0 <= i < b.len() implies hex_decoded(hex_encoded(b))[i] == b[i] by {
        let x = b[i];
        assert(x >> 4 < 16 && x & 0xf < 16 && (x >> 4) * 16 + (x & 0xf) == x) by (bit_vector);
        assert(hex_encoded(b)[2 * i] == hex_char(x >> 4));
        assert(hex_encoded(b)[2 * i + 1] == hex_char(x & 0xf));
    }
}

/// Strip a leading `0x`, then decode hex.
pub fn parse_data(s: &[u8]) -> (r: Result<Vec<u8>, CliError>)
    ensures
        r is Ok <==> hex_ok(strip_0x(s@)),
        r is Ok ==> r.unwrap()@ == hex_decoded(strip_0x(s@)),
        r is Err ==> r.unwrap_err() matches CliError::InvalidInput(_),
{
    if s.len() >= 2 && s[0] == 48 && s[1] == 120 {
        let rest = vstd::slice::slice_subrange(s, 2, s.len());
        hex_decode(rest)
    } else {
        hex_decode(s)
    }
}

/// Is `b` the ASCII code of a decimal digit?
pub open spec fn dec_digit_ok(b: u8) -> bool {
    48 <= b <= 57
}

/// The number a decimal digit string denotes.
pub open spec fn dec_value(s: Seq<u8>) -> int
    decreases s.len(),
{
    if s.len() == 0 {
        0
    } else {
        dec_value(s.drop_last()) * 10 + (s.last() - 48)
    }
}

/// A non-empty, all-digit decimal string.
pub open spec fn dec_ok(s: Seq<u8>) -> bool {
    &&& s.len() > 0
    &&& forall|i: int| 0 <= i < s.len() ==> dec_digit_ok(#[trigger] s[i])
}

proof fn lemma_dec_value_nonneg(s: Seq<u8>)
    requires
        forall|i: int| 0 <= i < s.len() ==> dec_digit_ok(#[trigger] s[i]),
    ensures
        dec_value(s) >= 0,
    decreases s.len(),
{
    if s.len() > 0 {
        lemma_dec_value_nonneg(s.drop_last());
    }
}

proof fn lemma_dec_value_prefix_le(s: Seq<u8>, i: int)
    requires
        0 <= i <= s.len(),
        forall|j: int| 0 <= j < s.len() ==> dec_digit_ok(#[trigger] s[j]),
    ensures
        dec_value(s.take(i)) <= dec_value(s),
    decreases s.len() - i,
{
    if i < s.len() {
        lemma_dec_value_prefix_le(s, i + 1);
        assert(s.take(i + 1).drop_last() =~= s.take(i));
        lemma_dec_value_nonneg(s.take(i));
    } else {
        assert(s.take(i) =~= s);
    }
}

/// Parse an unsigned decimal number. Succeeds exactly on non-empty digit
/// strings whose value fits in a `u64`.
pub fn parse_u64(s: &[u8]) -> (r: Result<u64, CliError>)
    ensures
        r is Ok <==> dec_ok(s@) && dec_value(s@) <= u64::MAX,
        r is Ok ==> r.unwrap() == dec_value(s@),
        r is Err ==> r.unwrap_err() matches CliError::InvalidInput(_),
{
    if s.len() == 0 {
        return Err(CliError::InvalidInput("empty number".to_owned()));
    }
    let n = s.len();
    let mut acc: u64 = 0;
    for i in 0..n
        invariant
            n == s@.len(),
            acc == dec_value(s@.take(i as int)),
            forall|j: int| 0 <= j < i ==> dec_digit_ok(#[trigger] s@[j]),
    {
        let b = s[i];
        if !(48 <= b && b <= 57) {
            return Err(CliError::InvalidInput("invalid decimal digit".to_owned()));
        }
        let d = (b - 48) as u64;
        let shifted = match acc.checked_mul(10) {
            Some(v) => v,
            None => {
                proof {
                    assert(s@.take(i + 1).drop_last() =~= s@.take(i as int));
                    overflow_means_too_big(s@, i as int, acc as int * 10);
                }
                return Err(CliError::InvalidInput("number too large".to_owned()));
            },
        };
        let next = match shifted.checked_add(d) {
            Some(v) => v,
            None => {
                proof {
                    assert(s@.take(i + 1).drop_last() =~= s@.take(i as int));
                    overflow_means_too_big(s@, i as int, acc as int * 10 + d);
                }
                return Err(CliError::InvalidInput("number too large".to_owned()));
            },
        };
        acc = next;
        assert(s@.take(i + 1).drop_last() =~= s@.take(i as int));
    }
    assert(s@.take(n as int) =~= s@);
    Ok(acc)
}

proof fn overflow_means_too_big(s: Seq<u8>, i: int, partial: int)
    requires
        0 <= i < s.len(),
        partial > u64::MAX,
        partial <= dec_value(s.take(i + 1)),
    ensures
        dec_ok(s) ==> dec_value(s) > u64::MAX,
{
    if dec_ok(s) {
        lemma_dec_value_prefix_le(s, i + 1);
    }
}

} // verus!
