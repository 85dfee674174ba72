//! Wire codec for payload bytes.
//!
//! On the HTTP transport payloads travel as `0x`-prefixed lowercase
//! hexadecimal strings; on the device transport they travel as raw bytes.
//! This module holds the hexadecimal half of that boundary: encoding is
//! always lowercase, decoding accepts either case and rejects malformed
//! input with an error instead of panicking.

use vstd::prelude::*;

verus! {

/// Error returned when a hexadecimal string cannot be decoded.
#[derive(Clone, Copy, Debug, PartialEq, Eq, Structural)]
pub enum HexDecodeError {
    /// The string holds an odd number of digits.
    OddLength,
    /// A character of the string is not a hexadecimal digit.
    InvalidDigit,
}

/// The lowercase character that encodes the four-bit value `n`.
pub open spec fn nibble_char(n: u8) -> char
    recommends
        n < 16,
{
    if n < 10 {
        (n + 48) as char
    } else {
        (n + 87) as char
    }
}

/// Whether `c` is a hexadecimal digit, of either case.
pub open spec fn is_hex_digit(c: char) -> bool {
    ('0' <= c && c <= '9') || ('a' <= c && c <= 'f') || ('A' <= c && c <= 'F')
}

/// The four-bit value that the digit `c` encodes.
pub open spec fn hex_digit_value(c: char) -> u8
    recommends
        is_hex_digit(c),
{
    if '0' <= c && c <= '9' {
        (c as int - 48) as u8
    } else if 'a' <= c && c <= 'f' {
        (c as int - 87) as u8
    } else {
        (c as int - 55) as u8
    }
}

/// The high four bits of `b`.
pub open spec fn high_nibble(b: u8) -> u8 {
    b / 16
}

/// The low four bits of `b`.
pub open spec fn low_nibble(b: u8) -> u8 {
    b % 16
}

/// The lowercase hexadecimal encoding of `bytes`: two digits per byte,
/// high nibble first.
pub open spec fn spec_hex_encode(bytes: Seq<u8>) -> Seq<char> {
    Seq::new(
        2 * bytes.len(),
        |i: int|
            if i % 2 == 0 {
                nibble_char(high_nibble(bytes[i / 2]))
            } else {
                nibble_char(low_nibble(bytes[i / 2]))
            },
    )
}

/// Whether `s` is a well-formed hexadecimal string: even length, every
/// character a digit of either case.
pub open spec fn spec_hex_decode_ok(s: Seq<char>) -> bool {
    s.len() % 2 == 0 && (forall|i: int| 0 <= i < s.len() ==> is_hex_digit(#[trigger] s[i]))
}

/// The bytes that the well-formed hexadecimal string `s` encodes.
pub open spec fn spec_hex_decode(s: Seq<char>) -> Seq<u8>
    recommends
        spec_hex_decode_ok(s),
{
    Seq::new(s.len() / 2, |i: int| (16 * hex_digit_value(s[2 * i]) + hex_digit_value(s[2 * i + 1])) as u8)
}

/// `c` lowered, for the hexadecimal alphabet only: `A`..`F` map to
/// `a`..`f`, every other character stays as it is.
pub open spec fn lower_hex(c: char) -> char {
    if 'A' <= c && c <= 'F' {
        (c as int + 32) as char
    } else {
        c
    }
}

/// `s` with every character lowered as by [`lower_hex`].
pub open spec fn lower_hex_seq(s: Seq<char>) -> Seq<char> {
    s.map_values(|c: char| lower_hex(c))
}

/// A digit of either case and its lowered form encode the same value.
proof fn lemma_lower_hex_digit(c: char)
    ensures
        is_hex_digit(lower_hex(c)) == is_hex_digit(c),
        is_hex_digit(c) ==> hex_digit_value(lower_hex(c)) == hex_digit_value(c),
{
}

/// The digit that encodes a nibble decodes back to it.
proof fn lemma_nibble_char_value(n: u8)
    requires
        n < 16,
    ensures
        is_hex_digit(nibble_char(n)),
        hex_digit_value(nibble_char(n)) == n,
        '0' <= nibble_char(n) && nibble_char(n) <= '9' || 'a' <= nibble_char(n) && nibble_char(n)
            <= 'f',
{
}

/// Encoding then decoding returns the payload unchanged: the hexadecimal
/// round-trip law. The encoding of any byte sequence is a well-formed
/// hexadecimal string, and decoding it yields the original bytes.
pub proof fn lemma_hex_round_trip(bytes: Seq<u8>)
    ensures
        spec_hex_decode_ok(spec_hex_encode(bytes)),
        spec_hex_decode(spec_hex_encode(bytes)) == bytes,
{
    let enc = spec_hex_encode(bytes);
    assert forall|i: int| 0 <= i < enc.len() implies is_hex_digit(#[trigger] enc[i]) by {
        if i % 2 == 0 {
            lemma_nibble_char_value(high_nibble(bytes[i / 2]));
        } else {
            lemma_nibble_char_value(low_nibble(bytes[i / 2]));
        }
    }
    let dec = spec_hex_decode(enc);
    assert forall|i: int| 0 <= i < dec.len() implies #[trigger] dec[i] == bytes[i] by {
        lemma_nibble_char_value(high_nibble(bytes[i]));
        lemma_nibble_char_value(low_nibble(bytes[i]));
        assert(enc[2 * i] == nibble_char(high_nibble(bytes[i])));
        assert(enc[2 * i + 1] == nibble_char(low_nibble(bytes[i])));
        assert(16 * (bytes[i] / 16) + bytes[i] % 16 == bytes[i]) by (nonlinear_arith);
    }
    assert(dec =~= bytes);
}

/// Every character of an encoding is a lowercase digit: `0`..`9` or
/// `a`..`f`, never `A`..`F`.
pub proof fn lemma_hex_encode_lowercase(bytes: Seq<u8>, i: int)
    requires
        0 <= i < spec_hex_encode(bytes).len(),
    ensures
        '0' <= spec_hex_encode(bytes)[i] && spec_hex_encode(bytes)[i] <= '9' || 'a'
            <= spec_hex_encode(bytes)[i] && spec_hex_encode(bytes)[i] <= 'f',
{
    if i % 2 == 0 {
        lemma_nibble_char_value(high_nibble(bytes[i / 2]));
    } else {
        lemma_nibble_char_value(low_nibble(bytes[i / 2]));
    }
}

/// Decoding ignores the case of the digits: a string and its lowered
/// form are equally well-formed and decode to the same bytes.
pub proof fn lemma_hex_decode_case_insensitive(s: Seq<char>)
    ensures
        spec_hex_decode_ok(lower_hex_seq(s)) == spec_hex_decode_ok(s),
        spec_hex_decode_ok(s) ==> spec_hex_decode(lower_hex_seq(s)) == spec_hex_decode(s),
{
    let low = lower_hex_seq(s);
    assert(low.len() == s.len());
    assert forall|i: int| 0 <= i < s.len() implies #[trigger] low[i] == lower_hex(s[i]) by {}
    if spec_hex_decode_ok(s) {
        assert forall|i: int| 0 <= i < low.len() implies is_hex_digit(#[trigger] low[i]) by {
            lemma_lower_hex_digit(s[i]);
        }
        assert forall|i: int|
            0 <= i < spec_hex_decode(low).len() implies #[trigger] spec_hex_decode(low)[i]
            == spec_hex_decode(s)[i] by {
            lemma_lower_hex_digit(s[2 * i]);
            lemma_lower_hex_digit(s[2 * i + 1]);
        }
        assert(spec_hex_decode(low) =~= spec_hex_decode(s));
    } else {
        if spec_hex_decode_ok(low) {
            assert forall|i: int| 0 <= i < s.len() implies is_hex_digit(#[trigger] s[i]) by {
                lemma_lower_hex_digit(s[i]);
                assert(low[i] == lower_hex(s[i]));
            }
            assert(spec_hex_decode_ok(s));
        }
    }
}

/// Relies on `String::push`: appends exactly the given character.
#[verifier::external_body]
fn push_char(s: &mut String, c: char)
    ensures
        final(s)@ == old(s)@.push(c),
{
    s.push(c);
}

/// The lowercase digit for a four-bit value.
fn nibble_to_char(n: u8) -> (c: char)
    requires
        n < 16,
    ensures
        c == nibble_char(n),
{
    match n {
        0 => '0',
        1 => '1',
        2 => '2',
        3 => '3',
        4 => '4',
        5 => '5',
        6 => '6',
        7 => '7',
        8 => '8',
        9 => '9',
        10 => 'a',
        11 => 'b',
        12 => 'c',
        13 => 'd',
        14 => 'e',
        _ => 'f',
    }
}

/// The four-bit value of a digit of either case, or `None` for any
/// other character.
fn char_to_nibble(c: char) -> (r: Option<u8>)
    ensures
        match r {
            Some(v) => is_hex_digit(c) && v == hex_digit_value(c) && v < 16,
            None => !is_hex_digit(c),
        },
{
    match c {
        '0' => Some(0),
        '1' => Some(1),
        '2' => Some(2),
        '3' => Some(3),
        '4' => Some(4),
        '5' => Some(5),
        '6' => Some(6),
        '7' => Some(7),
        '8' => Some(8),
        '9' => Some(9),
        'a' | 'A' => Some(10),
        'b' | 'B' => Some(11),
        'c' | 'C' => Some(12),
        'd' | 'D' => Some(13),
        'e' | 'E' => Some(14),
        'f' | 'F' => Some(15),
        _ => None,
    }
}

/// Encodes `bytes` as a lowercase hexadecimal string, two digits per
/// byte, without a prefix.
pub fn hex_encode(bytes: &[u8]) -> (r: String)
    ensures
        r@ == spec_hex_encode(bytes@),
{
    let mut out = String::new();
    let mut i: usize = 0;
    while i < bytes.len()
        invariant
            i <= bytes@.len(),
            out@ == spec_hex_encode(bytes@.subrange(0, i as int)),
        decreases bytes@.len() - i,
    {
        let b = bytes[i];
        let hi = nibble_to_char(b / 16);
        let lo = nibble_to_char(b % 16);
        push_char(&mut out, hi);
        push_char(&mut out, lo);
        i = i + 1;
        proof {
            let prev = bytes@.subrange(0, i - 1);
            let cur = bytes@.subrange(0, i as int);
            assert(cur[i - 1] == bytes@[i - 1]);
            assert(spec_hex_encode(cur) =~= spec_hex_encode(prev).push(
                nibble_char(high_nibble(bytes@[i - 1])),
            ).push(nibble_char(low_nibble(bytes@[i - 1]))));
        }
    }
    proof {
        assert(bytes@.subrange(0, bytes@.len() as int) =~= bytes@);
    }
    out
}

/// Decodes a hexadecimal string, of either case and without a prefix,
/// into bytes. Returns an error, never panics, on an odd length or a
/// character outside the hexadecimal alphabet.
pub fn hex_decode(s: &str) -> (r: Result<Vec<u8>, HexDecodeError>)
    ensures
        match r {
            Ok(bytes) => spec_hex_decode_ok(s@) && bytes@ == spec_hex_decode(s@),
            Err(e) => !spec_hex_decode_ok(s@) && (e == HexDecodeError::OddLength <==> s@.len() % 2
                != 0),
        },
{
    let n = s.unicode_len();
    if n % 2 != 0 {
        return Err(HexDecodeError::OddLength);
    }
    let mut out: Vec<u8> = Vec::new();
    let mut i: usize = 0;
    while i < n
        invariant
            s@.len() == n,
            n % 2 == 0,
            i % 2 == 0,
            i <= n,
            forall|j: int| 0 <= j < i ==> is_hex_digit(#[trigger] s@[j]),
            out@ == spec_hex_decode(s@.subrange(0, i as int)),
        decreases n - i,
    {
        let c_hi = s.get_char(i);
        let c_lo = s.get_char(i + 1);
        let hi = match char_to_nibble(c_hi) {
            Some(v) => v,
            None => {
                return Err(HexDecodeError::InvalidDigit);
            },
        };
        let lo = match char_to_nibble(c_lo) {
            Some(v) => v,
            None => {
                return Err(HexDecodeError::InvalidDigit);
            },
        };
        out.push(16 * hi + lo);
        i = i + 2;
        proof {
            let prev = s@.subrange(0, i - 2);
            let cur = s@.subrange(0, i as int);
            assert(cur[i - 2] == s@[i - 2]);
            assert(cur[i - 1] == s@[i - 1]);
            assert(spec_hex_decode(cur) =~= spec_hex_decode(prev).push(
                (16 * hex_digit_value(s@[i - 2]) + hex_digit_value(s@[i - 1])) as u8,
            ));
        }
    }
    proof {
        assert(s@.subrange(0, n as int) =~= s@);
    }
    Ok(out)
}

/// `s` with a leading `0x`, if it has one, stripped.
pub open spec fn spec_strip_hex_prefix(s: Seq<char>) -> Seq<char> {
    if s.len() >= 2 && s[0] == '0' && s[1] == 'x' {
        s.subrange(2, s.len() as int)
    } else {
        s
    }
}

/// The `0x`-prefixed lowercase hexadecimal encoding of `bytes`.
pub open spec fn spec_hex_prefixed(bytes: Seq<u8>) -> Seq<char> {
    seq!['0', 'x'] + spec_hex_encode(bytes)
}

/// Encodes `bytes` as a `0x`-prefixed lowercase hexadecimal string.
pub fn hex_encode_prefixed(bytes: &[u8]) -> (r: String)
    ensures
        r@ == spec_hex_prefixed(bytes@),
{
    let mut out = String::from_str("0x");
    proof {
        reveal_strlit("0x");
        assert("0x"@ =~= seq!['0', 'x']);
    }
    let digits = hex_encode(bytes);
    out.append(digits.as_str());
    out
}

/// Whether two strings hold the same characters.
pub fn str_eq(a: &str, b: &str) -> (r: bool)
    ensures
        r <==> a@ == b@,
{
    let na = a.unicode_len();
    let nb = b.unicode_len();
    if na != nb {
        return false;
    }
    let mut i: usize = 0;
    while i < na
        invariant
            a@.len() == na,
            b@.len() == na,
            i <= na,
            forall|j: int| 0 <= j < i ==> a@[j] == b@[j],
        decreases na - i,
    {
        if a.get_char(i) != b.get_char(i) {
            return false;
        }
        i = i + 1;
    }
    proof {
        assert(a@ =~= b@);
    }
    true
}

/// `s` with a leading `0x`, if it has one, stripped.
pub fn strip_hex_prefix(s: &str) -> (r: &str)
    ensures
        r@ == spec_strip_hex_prefix(s@),
{
    let n = s.unicode_len();
    if n >= 2 {
        let c0 = s.get_char(0);
        let c1 = s.get_char(1);
        if c0 == '0' && c1 == 'x' {
            return s.substring_char(2, n);
        }
    }
    s
}

} // verus!
