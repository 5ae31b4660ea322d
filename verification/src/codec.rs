//! Text forms of identifiers: UUIDs (through the `uuid` crate) and hex
//! strings (through the `hex` crate).

use vstd::prelude::*;

verus! {

/// The lower-case hex digit for a value below 16.
pub open spec fn hex_digit_lower(n: int) -> char {
    if n < 10 {
        (('0' as int) + n) as char
    } else {
        (('a' as int) + n - 10) as char
    }
}

/// The value of a hex digit of either case, if `c` is one.
pub open spec fn hex_value(c: char) -> Option<int> {
    if '0' <= c && c <= '9' {
        Some(c as int - '0' as int)
    } else if 'a' <= c && c <= 'f' {
        Some(c as int - 'a' as int + 10)
    } else if 'A' <= c && c <= 'F' {
        Some(c as int - 'A' as int + 10)
    } else {
        None
    }
}

/// Nibble `k` (0 is the most significant) of a 128-bit value.
pub open spec fn nibble(u: u128, k: int) -> int {
    ((u as int) / vstd::arithmetic::power::pow(16, (31 - k) as nat)) % 16
}

/// Index of the hex digit shown at position `i` of the hyphenated form.
pub open spec fn uuid_digit_index(i: int) -> int {
    if i < 8 {
        i
    } else if i < 13 {
        i - 1
    } else if i < 18 {
        i - 2
    } else if i < 23 {
        i - 3
    } else {
        i - 4
    }
}

/// The hyphenated lower-case form of a UUID, 8-4-4-4-12 hex digits, most
/// significant digit first.
pub open spec fn uuid_text(u: u128) -> Seq<char> {
    Seq::new(
        36,
        |i: int|
            if i == 8 || i == 13 || i == 18 || i == 23 {
                '-'
            } else {
                hex_digit_lower(nibble(u, uuid_digit_index(i)))
            },
    )
}

/// The value of a string of hex digits, most significant first.
pub open spec fn hex_digits_value(h: Seq<char>) -> int
    decreases h.len(),
{
    if h.len() == 0 {
        0
    } else {
        hex_digits_value(h.drop_last()) * 16 + hex_value(h.last())->0
    }
}

/// Every character is a hex digit of either case.
pub open spec fn all_hex(h: Seq<char>) -> bool {
    forall|i: int| 0 <= i < h.len() ==> hex_value(#[trigger] h[i]) is Some
}

/// The simple form: 32 hex digits.
pub open spec fn simple_uuid(h: Seq<char>) -> Option<u128> {
    if h.len() == 32 && all_hex(h) {
        Some(hex_digits_value(h) as u128)
    } else {
        None
    }
}

/// The 32 digits of a hyphenated text, without its four hyphens.
pub open spec fn hyphenated_digits(s: Seq<char>) -> Seq<char> {
    s.subrange(0, 8) + s.subrange(9, 13) + s.subrange(14, 18) + s.subrange(19, 23) + s.subrange(24, 36)
}

/// The hyphenated form: 8-4-4-4-12 hex digits.
pub open spec fn hyphenated_uuid(s: Seq<char>) -> Option<u128> {
    if s.len() == 36 && s[8] == '-' && s[13] == '-' && s[18] == '-' && s[23] == '-' {
        simple_uuid(hyphenated_digits(s))
    } else {
        None
    }
}

/// A character with ASCII upper case made lower case.
pub open spec fn ascii_lower(c: char) -> char {
    if 'A' <= c && c <= 'Z' {
        ((c as int) + 32) as char
    } else {
        c
    }
}

/// The prefix of the URN form, `urn:uuid:`, in any ASCII case.
pub open spec fn is_urn_prefix(p: Seq<char>) -> bool {
    p.len() == 9 && p.map_values(|c: char| ascii_lower(c)) == seq!['u', 'r', 'n', ':', 'u', 'u', 'i', 'd', ':']
}

/// What `uuid::Uuid::parse_str` accepts: 32 hex digits; the hyphenated
/// form; the hyphenated form in braces; or `urn:uuid:` (any ASCII case)
/// followed by the hyphenated form. Digits may be of either case; the value
/// reads the digits most significant first.
pub open spec fn uuid_from_text(t: Seq<char>) -> Option<u128> {
    if t.len() == 32 {
        simple_uuid(t)
    } else if t.len() == 36 {
        hyphenated_uuid(t)
    } else if t.len() == 38 && t[0] == '{' && t[37] == '}' {
        hyphenated_uuid(t.subrange(1, 37))
    } else if t.len() == 45 && is_urn_prefix(t.take(9)) {
        hyphenated_uuid(t.skip(9))
    } else {
        None
    }
}

/// Calls `uuid::Uuid::parse_str`, which accepts exactly the forms of
/// `uuid_from_text` (a character outside ASCII always fails, as the parser
/// reads bytes and accepts only ASCII ones) and gives the 16 bytes in order,
/// read here as a big-endian number.
#[verifier::external_body]
pub(crate) fn parse_uuid(text: &str) -> (r: Option<u128>)
    ensures
        r == uuid_from_text(text@),
{
    match uuid::Uuid::parse_str(text) {
        Ok(u) => Some(u.as_u128()),
        Err(_) => None,
    }
}

/// Calls `uuid::Uuid::from_u128(u).to_string()`, which the crate documents as
/// the hyphenated lower-case form.
#[verifier::external_body]
pub(crate) fn uuid_to_string(u: u128) -> (r: String)
    ensures
        r@ == uuid_text(u),
{
    uuid::Uuid::from_u128(u).to_string()
}

/// The bytes that a hex text stands for: every character a hex digit of
/// either case, an even number of them, two digits per byte.
pub open spec fn hex_decoded(text: Seq<char>) -> Option<Seq<u8>> {
    if text.len() % 2 == 0 && (forall|i: int| 0 <= i < text.len() ==> hex_value(#[trigger] text[i]) is Some) {
        Some(
            Seq::new(
                text.len() / 2,
                |i: int| (hex_value(text[2 * i])->0 * 16 + hex_value(text[2 * i + 1])->0) as u8,
            ),
        )
    } else {
        None
    }
}

/// The lower-case hex text of some bytes, two digits per byte.
pub open spec fn hex_encoded(bytes: Seq<u8>) -> Seq<char> {
    Seq::new(
        2 * bytes.len(),
        |i: int|
            if i % 2 == 0 {
                hex_digit_lower(bytes[i / 2] as int / 16)
            } else {
                hex_digit_lower(bytes[i / 2] as int % 16)
            },
    )
}

/// Calls `hex::decode`: an odd length or any character that is not a hex
/// digit is an error, otherwise each pair of digits (either case) is one
/// byte.
#[verifier::external_body]
pub(crate) fn decode_hex(text: &str) -> (r: Option<Vec<u8>>)
    ensures
        match r {
            Some(v) => hex_decoded(text@) == Some(v@),
            None => hex_decoded(text@) is None,
        },
{
    hex::decode(text).ok()
}

/// Calls `hex::encode`, which writes two lower-case digits per byte.
#[verifier::external_body]
pub(crate) fn encode_hex(bytes: &[u8]) -> (r: String)
    ensures
        r@ == hex_encoded(bytes@),
{
    hex::encode(bytes)
}

proof fn lemma_hex_digit_value(n: int)
    requires
        0 <= n < 16,
    ensures
        hex_value(hex_digit_lower(n)) == Some(n),
{
}

/// Decoding the hex text of some bytes gives back those bytes.
pub proof fn lemma_hex_round_trip(bytes: Seq<u8>)
    ensures
        hex_decoded(hex_encoded(bytes)) == Some(bytes),
{
    let t = hex_encoded(bytes);
    assert forall|i: int| 0 <= i < t.len() implies hex_value(#[trigger] t[i]) is Some by {
        let b = bytes[i / 2] as int;
        if i % 2 == 0 {
            lemma_hex_digit_value(b / 16);
        } else {
            lemma_hex_digit_value(b % 16);
        }
    }
    let d = hex_decoded(t)->0;
    assert(d.len() == bytes.len());
    assert forall|i: int| 0 <= i < bytes.len() implies d[i] == bytes[i] by {
        let b = bytes[i] as int;
        assert((2 * i) / 2 == i);
        assert((2 * i + 1) / 2 == i);
        assert((2 * i) % 2 == 0);
        assert((2 * i + 1) % 2 == 1);
        lemma_hex_digit_value(b / 16);
        lemma_hex_digit_value(b % 16);
        assert(t[2 * i] == hex_digit_lower(b / 16));
        assert(t[2 * i + 1] == hex_digit_lower(b % 16));
        assert((b / 16) * 16 + b % 16 == b);
    }
    assert(d == bytes);
}

/// The digits of the hyphenated form of `u`, most significant first.
proof fn lemma_uuid_text_digits(u: u128)
    ensures
        hyphenated_digits(uuid_text(u)) == Seq::new(32, |k: int| hex_digit_lower(nibble(u, k))),
{
    let t = uuid_text(u);
    let d = hyphenated_digits(t);
    assert(d.len() == 32);
    assert forall|k: int| 0 <= k < 32 implies d[k] == hex_digit_lower(nibble(u, k)) by {
        if k < 8 {
            assert(d[k] == t[k]);
        } else if k < 12 {
            assert(d[k] == t[k + 1]);
        } else if k < 16 {
            assert(d[k] == t[k + 2]);
        } else if k < 20 {
            assert(d[k] == t[k + 3]);
        } else {
            assert(d[k] == t[k + 4]);
        }
    }
    assert(d =~= Seq::new(32, |k: int| hex_digit_lower(nibble(u, k))));
}

/// The value of the first `m` digits of `u` is `u` without its last
/// `32 - m` digits.
proof fn lemma_uuid_digits_prefix_value(u: u128, m: int)
    requires
        0 <= m <= 32,
    ensures
        hex_digits_value(Seq::new(32, |k: int| hex_digit_lower(nibble(u, k))).take(m))
            == (u as int) / vstd::arithmetic::power::pow(16, (32 - m) as nat),
    decreases m,
{
    let d = Seq::new(32, |k: int| hex_digit_lower(nibble(u, k)));
    if m == 0 {
        assert(d.take(0) =~= Seq::<char>::empty());
        reveal_with_fuel(vstd::arithmetic::power::pow, 33);
        assert(vstd::arithmetic::power::pow(16, 32) == 0x1_0000_0000_0000_0000_0000_0000_0000_0000int);
        vstd::arithmetic::div_mod::lemma_basic_div(u as int, vstd::arithmetic::power::pow(16, 32));
    } else {
        lemma_uuid_digits_prefix_value(u, m - 1);
        assert(d.take(m).drop_last() =~= d.take(m - 1));
        let p = vstd::arithmetic::power::pow(16, (32 - m) as nat);
        vstd::arithmetic::power::lemma_pow_positive(16, (32 - m) as nat);
        assert((((33 - m) as nat) - 1) as nat == (32 - m) as nat);
        reveal(vstd::arithmetic::power::pow);
        assert(vstd::arithmetic::power::pow(16, (33 - m) as nat) == 16 * p);
        let n = nibble(u, m - 1);
        assert(0 <= n < 16);
        lemma_hex_digit_value(n);
        assert(d.take(m).last() == hex_digit_lower(n));
        let y = (u as int) / p;
        vstd::arithmetic::div_mod::lemma_div_denominator(u as int, p, 16);
        assert((u as int) / (p * 16) == y / 16);
        assert(p * 16 == 16 * p) by (nonlinear_arith);
        vstd::arithmetic::div_mod::lemma_fundamental_div_mod(y, 16);
        assert(n == y % 16);
        assert(hex_digits_value(d.take(m)) == (y / 16) * 16 + y % 16) by (nonlinear_arith)
            requires
                hex_digits_value(d.take(m)) == hex_digits_value(d.take(m - 1)) * 16 + n,
                hex_digits_value(d.take(m - 1)) == y / 16,
                n == y % 16;
        assert((y / 16) * 16 + y % 16 == y) by (nonlinear_arith)
            requires
                y == 16 * (y / 16) + y % 16;
    }
}

/// The hyphenated form of a UUID parses back to it.
pub proof fn lemma_uuid_text_round_trip(u: u128)
    ensures
        uuid_from_text(uuid_text(u)) == Some(u),
{
    let t = uuid_text(u);
    let d = Seq::new(32, |k: int| hex_digit_lower(nibble(u, k)));
    lemma_uuid_text_digits(u);
    assert forall|i: int| 0 <= i < d.len() implies hex_value(#[trigger] d[i]) is Some by {
        lemma_hex_digit_value(nibble(u, i));
    }
    lemma_uuid_digits_prefix_value(u, 32);
    assert(d.take(32) =~= d);
    vstd::arithmetic::power::lemma_pow0(16);
    assert(t[8] == '-' && t[13] == '-' && t[18] == '-' && t[23] == '-');
}

} // verus!
