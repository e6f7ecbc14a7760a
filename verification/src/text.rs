//! Byte- and text-level helpers shared across the crate: slice and string
//! equality, decimal parsing of the kind str::parse does for unsigned
//! integers, and decimal formatting.
use vstd::prelude::*;

verus! {

use vstd::string::*;
use vstd::utf8::encode_utf8_decode_utf8;

/// Whether two byte slices hold the same bytes.
pub fn bytes_eq(a: &[u8], b: &[u8]) -> (r: bool)
    ensures
        r == (a@ == b@),
{
    if a.len() != b.len() {
        return false;
    }
    for i in 0..a.len()
        invariant
            a@.len() == b@.len(),
            i <= a@.len(),
            forall|j: int| 0 <= j < i ==> a@[j] == b@[j],
    {
        if a[i] != b[i] {
            return false;
        }
    }
    assert(a@ =~= b@);
    true
}

/// Whether two strings hold the same characters.
pub fn str_eq(a: &str, b: &str) -> (r: bool)
    ensures
        r == (a@ == b@),
{
    let r = bytes_eq(a.as_bytes(), b.as_bytes());
    proof {
        if a.spec_bytes() == b.spec_bytes() {
            encode_utf8_decode_utf8(a@);
            encode_utf8_decode_utf8(b@);
        }
    }
    r
}

/// An ASCII decimal digit byte.
pub open spec fn is_digit_byte(b: u8) -> bool {
    48 <= b && b <= 57
}

/// Whether every byte of the sequence is a decimal digit.
pub open spec fn all_digit_bytes(s: Seq<u8>) -> bool {
    forall|i: int| 0 <= i < s.len() ==> is_digit_byte(#[trigger] s[i])
}

/// The value a sequence of decimal digit bytes spells, most significant
/// digit first.
pub open spec fn digits_value(s: Seq<u8>) -> int
    decreases s.len(),
{
    if s.len() == 0 {
        0
    } else {
        digits_value(s.drop_last()) * 10 + (s.last() - 48)
    }
}

/// The digit part of a decimal numeral: everything after an optional
/// leading plus sign.
pub open spec fn numeral_digits(s: Seq<u8>) -> Seq<u8> {
    if s.len() > 0 && s[0] == 43 {
        s.drop_first()
    } else {
        s
    }
}

/// Whether a byte sequence is a decimal numeral whose value stays within a
/// bound: an optional plus sign, then at least one digit, spelling a value
/// at most the bound. This is the shape str::parse accepts for an unsigned
/// integer type whose maximum is the bound.
pub open spec fn is_numeral_within(s: Seq<u8>, bound: int) -> bool {
    &&& numeral_digits(s).len() > 0
    &&& all_digit_bytes(numeral_digits(s))
    &&& digits_value(numeral_digits(s)) <= bound
}

/// A sequence of digit bytes spells a non-negative value.
proof fn lemma_digits_value_nonneg(s: Seq<u8>)
    requires
        all_digit_bytes(s),
    ensures
        digits_value(s) >= 0,
    decreases s.len(),
{
    if s.len() > 0 {
        assert(all_digit_bytes(s.drop_last())) by {
            assert(forall|i: int|
                0 <= i < s.len() - 1 ==> s.drop_last()[i] == #[trigger] s[i]);
        }
        lemma_digits_value_nonneg(s.drop_last());
    }
}

/// Dropping trailing digits never increases the value a numeral spells.
proof fn lemma_digits_value_take_le(s: Seq<u8>, i: int)
    requires
        all_digit_bytes(s),
        0 <= i <= s.len(),
    ensures
        digits_value(s.take(i)) <= digits_value(s),
    decreases s.len() - i,
{
    if i == s.len() {
        assert(s.take(i) =~= s);
    } else {
        lemma_digits_value_take_le(s, i + 1);
        let t = s.take(i + 1);
        assert(t.drop_last() =~= s.take(i));
        assert(all_digit_bytes(t)) by {
            assert(forall|j: int| 0 <= j < i + 1 ==> t[j] == #[trigger] s[j]);
        }
        lemma_digits_value_nonneg(s.take(i));
        assert(digits_value(t) == digits_value(s.take(i)) * 10 + (t.last() - 48));
        assert(digits_value(s.take(i)) * 10 >= digits_value(s.take(i)));
    }
}

/// Parse a decimal numeral the way str::parse does for u64: an optional
/// leading plus sign, then at least one decimal digit. Returns the spelled
/// value when the input has that shape and the value fits, and nothing
/// otherwise.
pub fn parse_u64(s: &str) -> (r: Option<u64>)
    ensures
        match r {
            Some(v) => is_numeral_within(s.spec_bytes(), u64::MAX as int) && v
                == digits_value(numeral_digits(s.spec_bytes())),
            None => !is_numeral_within(s.spec_bytes(), u64::MAX as int),
        },
{
    let bytes = s.as_bytes();
    let ghost digits = numeral_digits(s.spec_bytes());
    let mut i: usize = 0;
    if bytes.len() > 0 && bytes[0] == 43 {
        i = 1;
    }
    let ghost start = i as int;
    proof {
        assert(digits =~= bytes@.subrange(start, bytes@.len() as int));
    }
    if i == bytes.len() {
        return None;
    }
    let mut acc: u64 = 0;
    while i < bytes.len()
        invariant
            0 <= start <= i <= bytes@.len(),
            digits == numeral_digits(s.spec_bytes()),
            digits == bytes@.subrange(start, bytes@.len() as int),
            all_digit_bytes(bytes@.subrange(start, i as int)),
            acc == digits_value(bytes@.subrange(start, i as int)),
        decreases bytes@.len() - i,
    {
        let b = bytes[i];
        if b < 48 || b > 57 {
            proof {
                let k = i - start;
                assert(bytes@.subrange(start, bytes@.len() as int)[k] == bytes@[start + k]);
                assert(!is_digit_byte(digits[k]));
                assert(!all_digit_bytes(digits));
            }
            return None;
        }
        let ghost prefix = bytes@.subrange(start, i as int);
        let ghost extended = bytes@.subrange(start, i + 1);
        proof {
            assert(extended.drop_last() =~= prefix);
            assert(digits_value(extended) == digits_value(prefix) * 10 + (b - 48));
        }
        let overflowed: bool;
        match acc.checked_mul(10) {
            Some(shifted) => {
                match shifted.checked_add((b - 48) as u64) {
                    Some(next) => {
                        acc = next;
                        overflowed = false;
                    },
                    None => {
                        overflowed = true;
                    },
                }
            },
            None => {
                overflowed = true;
            },
        }
        if overflowed {
            assert(digits_value(extended) > u64::MAX as int);
            assert(!is_numeral_within(s.spec_bytes(), u64::MAX as int)) by {
                if all_digit_bytes(digits) {
                    assert(extended =~= digits.take(i + 1 - start));
                    lemma_digits_value_take_le(digits, i + 1 - start);
                }
            }
            return None;
        }
        i = i + 1;
    }
    proof {
        assert(bytes@.subrange(start, i as int) =~= digits);
    }
    Some(acc)
}

/// Parse a decimal numeral the way str::parse does for u32.
pub fn parse_u32(s: &str) -> (r: Option<u32>)
    ensures
        match r {
            Some(v) => is_numeral_within(s.spec_bytes(), u32::MAX as int) && v
                == digits_value(numeral_digits(s.spec_bytes())),
            None => !is_numeral_within(s.spec_bytes(), u32::MAX as int),
        },
{
    match parse_u64(s) {
        Some(v) => {
            if v <= 0xffff_ffff {
                Some(v as u32)
            } else {
                None
            }
        },
        None => None,
    }
}

/// The decimal digit character for a value below ten.
pub open spec fn dec_digit(v: int) -> char
    recommends
        0 <= v < 10,
{
    (((48 + v) as u8) as char)
}

/// The decimal numeral of a non-negative value: most significant digit
/// first, no sign, no leading zeros except on zero itself.
pub open spec fn dec_str_of(n: int) -> Seq<char>
    decreases n,
{
    if n < 10 {
        seq![dec_digit(n)]
    } else {
        dec_str_of(n / 10).push(dec_digit(n % 10))
    }
}

/// The one-character string of a decimal digit.
fn dec_digit_str(d: u64) -> (r: &'static str)
    requires
        d < 10,
    ensures
        r@ =~= seq![dec_digit(d as int)],
{
    proof {
        reveal_strlit("0");
        reveal_strlit("1");
        reveal_strlit("2");
        reveal_strlit("3");
        reveal_strlit("4");
        reveal_strlit("5");
        reveal_strlit("6");
        reveal_strlit("7");
        reveal_strlit("8");
        reveal_strlit("9");
    }
    match d {
        0 => "0",
        1 => "1",
        2 => "2",
        3 => "3",
        4 => "4",
        5 => "5",
        6 => "6",
        7 => "7",
        8 => "8",
        _ => "9",
    }
}

/// The decimal numeral of a value, as a string.
pub fn u64_to_dec(n: u64) -> (r: String)
    ensures
        r@ == dec_str_of(n as int),
    decreases n,
{
    if n < 10 {
        dec_digit_str(n).to_owned()
    } else {
        let mut s = u64_to_dec(n / 10);
        s.append(dec_digit_str(n % 10));
        proof {
            assert(s@ =~= dec_str_of(n as int));
        }
        s
    }
}

/// The decimal numeral of a value below a hundred, padded with a leading
/// zero to two digits.
pub open spec fn two_dec_of(n: int) -> Seq<char>
    recommends
        0 <= n < 100,
{
    seq![dec_digit(n / 10), dec_digit(n % 10)]
}

/// The two-digit zero-padded decimal numeral of a value below a hundred.
pub fn u64_to_two_dec(n: u64) -> (r: String)
    requires
        n < 100,
    ensures
        r@ == two_dec_of(n as int),
{
    let mut s = dec_digit_str(n / 10).to_owned();
    s.append(dec_digit_str(n % 10));
    proof {
        assert(s@ =~= two_dec_of(n as int));
    }
    s
}

} // verus!
