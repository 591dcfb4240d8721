//! Identifiers and clock readings: UUIDs held as their 128-bit value, and
//! UTC timestamps held as seconds and nanoseconds.
use vstd::prelude::*;
use vstd::string::*;
use vstd::utf8::{encode_utf8, is_ascii_chars, is_ascii_chars_encode_utf8};
use crate::text::hex_char;

verus! {

/// The 32 lowercase hexadecimal digits of a UUID, most significant first.
pub open spec fn uuid_hex(u: u128) -> Seq<char> {
    Seq::new(32, |i: int| hex_char(((u >> ((124 - 4 * i) as u128)) & 0xf) as int))
}

/// The hyphenated lowercase text of a UUID, in groups of 8, 4, 4, 4 and 12
/// digits, such as `550e8400-e29b-41d4-a716-446655440000`.
pub open spec fn uuid_text(u: u128) -> Seq<char> {
    let h = uuid_hex(u);
    h.subrange(0, 8) + seq!['-'] + h.subrange(8, 12) + seq!['-'] + h.subrange(12, 16) + seq!['-']
        + h.subrange(16, 20) + seq!['-'] + h.subrange(20, 32)
}

/// A UUID carries the marks of a random (version 4, RFC 4122 variant) UUID.
pub open spec fn is_random_uuid(u: u128) -> bool {
    &&& (u >> 76u128) & 0xf == 4
    &&& (u >> 62u128) & 0x3 == 2
}

/// The value of a hexadecimal digit byte, in either case.
pub open spec fn hex_digit_value(b: u8) -> Option<int> {
    if 0x30 <= b && b <= 0x39 {
        Some(b - 0x30)
    } else if 0x61 <= b && b <= 0x66 {
        Some(b - 0x61 + 10)
    } else if 0x41 <= b && b <= 0x46 {
        Some(b - 0x41 + 10)
    } else {
        None
    }
}

/// The value of hexadecimal digit bytes read most significant first;
/// nothing when a byte is not a hexadecimal digit.
pub open spec fn hex_digits_value(digits: Seq<u8>) -> Option<int>
    decreases digits.len(),
{
    if digits.len() == 0 {
        Some(0)
    } else {
        match (hex_digits_value(digits.drop_last()), hex_digit_value(digits.last())) {
            (Some(v), Some(d)) => Some(v * 16 + d),
            _ => None,
        }
    }
}

/// How many hyphens of the hyphenated form precede the `k`-th digit.
pub open spec fn hyphens_before(k: int) -> int {
    if k < 8 {
        0
    } else if k < 12 {
        1
    } else if k < 16 {
        2
    } else if k < 20 {
        3
    } else {
        4
    }
}

/// The 32 digit bytes of a hyphenated UUID text: 36 bytes with hyphens at
/// positions 8, 13, 18 and 23, in groups of 8, 4, 4, 4 and 12.
pub open spec fn hyphenated_digits(s: Seq<u8>) -> Option<Seq<u8>> {
    if s.len() == 36 && s[8] == 0x2d && s[13] == 0x2d && s[18] == 0x2d && s[23] == 0x2d {
        Some(Seq::new(32, |k: int| s[k + hyphens_before(k)]))
    } else {
        None
    }
}

/// A byte with ASCII upper-case letters mapped to lower case.
pub open spec fn ascii_lower_byte(b: u8) -> u8 {
    if 0x41 <= b && b <= 0x5a {
        (b + 32) as u8
    } else {
        b
    }
}

/// The bytes of `urn:uuid:`.
pub open spec fn urn_prefix() -> Seq<u8> {
    seq![0x75u8, 0x72, 0x6e, 0x3a, 0x75, 0x75, 0x69, 0x64, 0x3a]
}

/// The 32 digit bytes of a UUID text in one of the four forms `uuid`
/// accepts, told apart by length: simple (32 bytes), hyphenated (36),
/// braced `{...}` (38) and `urn:uuid:` in any ASCII case (45).
pub open spec fn uuid_digits(b: Seq<u8>) -> Option<Seq<u8>> {
    if b.len() == 32 {
        Some(b)
    } else if b.len() == 36 {
        hyphenated_digits(b)
    } else if b.len() == 38 && b[0] == 0x7b && b[37] == 0x7d {
        hyphenated_digits(b.subrange(1, 37))
    } else if b.len() == 45 && (forall|i: int| 0 <= i < 9 ==> ascii_lower_byte(#[trigger] b[i]) == urn_prefix()[i]) {
        hyphenated_digits(b.subrange(9, 45))
    } else {
        None
    }
}

/// What `uuid::Uuid::parse_str` makes of a text: its UTF-8 bytes must be a
/// UUID in one of the accepted forms, whose 32 hexadecimal digits (in either
/// case) give the UUID's value, most significant first.
pub open spec fn uuid_parsed(text: Seq<char>) -> Option<u128> {
    match uuid_digits(encode_utf8(text)) {
        Some(digits) => match hex_digits_value(digits) {
            Some(v) => Some(v as u128),
            None => None,
        },
        None => None,
    }
}

/// The `k`-th hexadecimal digit of a UUID, most significant first.
pub open spec fn uuid_nibble(u: u128, k: int) -> int {
    ((u >> ((124 - 4 * k) as u128)) & 0xf) as int
}

/// A lowercase hex digit is an ASCII character whose byte has its value.
proof fn lemma_hex_char_byte(n: int)
    requires
        0 <= n < 16,
    ensures
        '\0' <= hex_char(n) <= '\u{7f}',
        hex_digit_value(hex_char(n) as u8) == Some(n),
{
    if n == 0 {} else if n == 1 {} else if n == 2 {} else if n == 3 {}
    else if n == 4 {} else if n == 5 {} else if n == 6 {} else if n == 7 {}
    else if n == 8 {} else if n == 9 {} else if n == 10 {} else if n == 11 {}
    else if n == 12 {} else if n == 13 {} else if n == 14 {} else {}
}

/// Where the digits and hyphens of a UUID's hyphenated text stand.
proof fn lemma_uuid_text_layout(u: u128)
    ensures
        uuid_text(u).len() == 36,
        uuid_text(u)[8] == '-' && uuid_text(u)[13] == '-' && uuid_text(u)[18] == '-' && uuid_text(u)[23] == '-',
        forall|k: int| 0 <= k < 32 ==> uuid_text(u)[k + hyphens_before(k)] == #[trigger] uuid_hex(u)[k],
{
    let h = uuid_hex(u);
    let t = uuid_text(u);
    assert forall|k: int| 0 <= k < 32 implies t[k + hyphens_before(k)] == #[trigger] h[k] by {
        if k < 8 {
        } else if k < 12 {
        } else if k < 16 {
        } else if k < 20 {
        } else {
        }
    }
}

/// Reading the digits of a UUID back, `k` of them at a time.
proof fn lemma_uuid_digits_value(u: u128, digits: Seq<u8>, k: int)
    requires
        digits.len() == 32,
        forall|j: int| 0 <= j < 32 ==> hex_digit_value(#[trigger] digits[j]) == Some(uuid_nibble(u, j)),
        1 <= k <= 32,
    ensures
        hex_digits_value(digits.take(k)) == Some((u >> ((128 - 4 * k) as u128)) as int),
    decreases k,
{
    let d = digits.take(k);
    assert(d.drop_last() == digits.take(k - 1));
    assert(d.last() == digits[k - 1]);
    if k == 1 {
        assert(digits.take(0).len() == 0);
        assert((u >> 124u128) & 0xf == u >> 124u128) by (bit_vector);
    } else {
        lemma_uuid_digits_value(u, digits, k - 1);
        let s = (124 - 4 * (k - 1)) as u128;
        assert(s <= 120);
        assert((u >> (s + 4)) * 16 + ((u >> s) & 0xf) == u >> s) by (bit_vector)
            requires
                s <= 120,
        ;
        assert((128 - 4 * (k - 1)) as u128 == s + 4);
        assert((128 - 4 * k) as u128 == s);
    }
}

/// The hyphenated lowercase text of a UUID reads back as that UUID.
pub proof fn lemma_uuid_text_reads_back(u: u128)
    ensures
        uuid_parsed(uuid_text(u)) == Some(u),
{
    let t = uuid_text(u);
    let h = uuid_hex(u);
    lemma_uuid_text_layout(u);
    assert forall|j: int| 0 <= j < 32 implies '\0' <= #[trigger] h[j] <= '\u{7f}'
        && hex_digit_value(h[j] as u8) == Some(uuid_nibble(u, j)) by {
        assert(0 <= uuid_nibble(u, j) < 16) by {
            let s = (124 - 4 * j) as u128;
            assert((u >> s) & 0xf < 16) by (bit_vector);
        }
        lemma_hex_char_byte(uuid_nibble(u, j));
    }
    assert(is_ascii_chars(t)) by {
        assert forall|i: int| 0 <= i < t.len() implies '\0' <= #[trigger] t[i] <= '\u{7f}' by {
            if i == 8 || i == 13 || i == 18 || i == 23 {
            } else {
                let k = if i < 8 { i } else if i < 13 { i - 1 } else if i < 18 { i - 2 } else if i < 23 { i - 3 } else { i - 4 };
                assert(k + hyphens_before(k) == i);
                assert(t[i] == h[k]);
            }
        }
    }
    is_ascii_chars_encode_utf8(t);
    let b = encode_utf8(t);
    assert(b.len() == 36);
    assert(b[8] == 0x2d && b[13] == 0x2d && b[18] == 0x2d && b[23] == 0x2d);
    let digits = Seq::new(32, |k: int| b[k + hyphens_before(k)]);
    assert(uuid_digits(b) == Some(digits));
    assert forall|j: int| 0 <= j < 32 implies hex_digit_value(#[trigger] digits[j]) == Some(uuid_nibble(u, j)) by {
        assert(digits[j] == b[j + hyphens_before(j)]);
        assert(b[j + hyphens_before(j)] == t[j + hyphens_before(j)] as u8);
        assert(t[j + hyphens_before(j)] == h[j]);
    }
    lemma_uuid_digits_value(u, digits, 32);
    assert(digits.take(32) == digits);
    assert(u >> 0u128 == u) by (bit_vector);
}

/// Draws a fresh random UUID with `uuid::Uuid::new_v4`; the contract claims
/// only the version and variant marks that `new_v4` sets on every outcome.
#[verifier::external_body]
pub(crate) fn fresh_uuid() -> (u: u128)
    ensures
        is_random_uuid(u),
{
    uuid::Uuid::new_v4().as_u128()
}

/// Renders a UUID with its `Display` implementation (`uuid::Uuid::to_string`),
/// which the contract claims is the hyphenated lowercase form.
#[verifier::external_body]
pub(crate) fn uuid_to_text(u: u128) -> (r: String)
    ensures
        r@ == uuid_text(u),
{
    uuid::Uuid::from_u128(u).to_string()
}

/// Reads a UUID with `uuid::Uuid::parse_str`; the contract claims the
/// grammar that the parser's source accepts (`uuid_parsed`): the simple,
/// hyphenated, braced and URN forms, hexadecimal digits in either case, the
/// value read most significant digit first.
#[verifier::external_body]
pub(crate) fn parse_uuid(text: &str) -> (r: Option<u128>)
    ensures
        r == uuid_parsed(text@),
{
    match uuid::Uuid::parse_str(text) {
        Ok(u) => Some(u.as_u128()),
        Err(_) => None,
    }
}

/// A point in UTC time: whole seconds since the Unix epoch and the
/// nanoseconds past that second.
#[derive(Clone, Copy, Debug, PartialEq, Eq)]
pub struct Timestamp {
    pub secs: i64,
    pub nanos: u32,
}

/// Reads the current UTC time with `chrono::Utc::now`; nothing is claimed of
/// the reading.
#[verifier::external_body]
pub(crate) fn utc_now() -> Timestamp {
    let now = chrono::Utc::now();
    Timestamp { secs: now.timestamp(), nanos: now.timestamp_subsec_nanos() }
}

} // verus!
