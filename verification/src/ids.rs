//! Identifiers. An identifier is a UUID held as its 128-bit big-endian value;
//! its text form is the lower-case hyphenated form of RFC 9562.
use vstd::prelude::*;

verus! {

/// The version field of a UUID (bits 76..80 of its 128-bit value).
pub open spec fn uuid_version(id: u128) -> u128 {
    (id >> 76u128) & 0xfu128
}

/// The variant field of a UUID (bits 62..64 of its 128-bit value).
pub open spec fn uuid_variant(id: u128) -> u128 {
    (id >> 62u128) & 0x3u128
}

pub open spec fn pow16(n: nat) -> int
    decreases n,
{
    if n == 0 {
        1
    } else {
        16 * pow16((n - 1) as nat)
    }
}

/// The `k`-th hexadecimal digit of `id`, counted from the most significant one.
pub open spec fn nibble(id: u128, k: int) -> int {
    ((id as int) / pow16((31 - k) as nat)) % 16
}

pub open spec fn lower_hex_digit(n: int) -> char {
    seq!['0', '1', '2', '3', '4', '5', '6', '7', '8', '9', 'a', 'b', 'c', 'd', 'e', 'f'][n]
}

/// Position of the digit shown at text position `i` of the hyphenated form.
pub open spec fn digit_at(i: int) -> int {
    if i < 8 {
        i
    } else if i < 13 {
        i - 1
    } else if i < 18 {
        i - 2
    } else if i < 23 {
        i - 3
    } else {
        i - 4
    }
}

pub open spec fn is_hyphen_position(i: int) -> bool {
    i == 8 || i == 13 || i == 18 || i == 23
}

/// The hyphenated text of an identifier, e.g. `a1a2a3a4-b1b2-c1c2-d1d2-d3d4d5d6d7d8`.
pub open spec fn uuid_text(id: u128) -> Seq<char> {
    Seq::new(
        36,
        |i: int|
            if is_hyphen_position(i) {
                '-'
            } else {
                lower_hex_digit(nibble(id, digit_at(i)))
            },
    )
}

/// Value of a hexadecimal digit in either case.
pub open spec fn hex_value(c: char) -> Option<int> {
    let v = c as int;
    if 48 <= v <= 57 {
        Some(v - 48)
    } else if 97 <= v <= 102 {
        Some(v - 87)
    } else if 65 <= v <= 70 {
        Some(v - 55)
    } else {
        None
    }
}

pub open spec fn all_hex(s: Seq<char>) -> bool {
    forall|i: int| 0 <= i < s.len() ==> (#[trigger] hex_value(s[i])) is Some
}

/// The number that a run of hexadecimal digits writes, most significant first.
pub open spec fn hex_number(s: Seq<char>) -> int
    decreases s.len(),
{
    if s.len() == 0 {
        0
    } else {
        hex_number(s.drop_last()) * 16 + hex_value(s.last()).unwrap()
    }
}

pub open spec fn parse_simple(s: Seq<char>) -> Option<u128> {
    if s.len() == 32 && all_hex(s) {
        Some(hex_number(s) as u128)
    } else {
        None
    }
}

pub open spec fn parse_hyphenated(s: Seq<char>) -> Option<u128> {
    if s.len() == 36 && s[8] == '-' && s[13] == '-' && s[18] == '-' && s[23] == '-' {
        parse_simple(
            s.subrange(0, 8) + s.subrange(9, 13) + s.subrange(14, 18) + s.subrange(19, 23)
                + s.subrange(24, 36),
        )
    } else {
        None
    }
}

pub open spec fn ascii_lower(c: char) -> int {
    let v = c as int;
    if 65 <= v <= 90 {
        v + 32
    } else {
        v
    }
}

/// `s` starts with `urn:uuid:` in any ASCII case.
pub open spec fn has_urn_prefix(s: Seq<char>) -> bool {
    let p = seq!['u', 'r', 'n', ':', 'u', 'u', 'i', 'd', ':'];
    s.len() >= 9 && forall|i: int| 0 <= i < 9 ==> ascii_lower(#[trigger] s[i]) == p[i] as int
}

/// What the parser of the `uuid` crate accepts: the simple form (32 hex digits),
/// the hyphenated form, the hyphenated form in braces, and the URN form.
/// Hex digits may be of either case.
pub open spec fn uuid_parse(s: Seq<char>) -> Option<u128> {
    if s.len() == 32 {
        parse_simple(s)
    } else if s.len() == 36 {
        parse_hyphenated(s)
    } else if s.len() == 38 && s[0] == '{' && s[37] == '}' {
        parse_hyphenated(s.subrange(1, 37))
    } else if s.len() == 45 && has_urn_prefix(s) {
        parse_hyphenated(s.subrange(9, 45))
    } else {
        None
    }
}

/// Calls `uuid::Uuid::new_v4`: a random identifier whose version field is 4
/// and whose variant field is the RFC one (`0b10`); nothing else is promised.
#[verifier::external_body]
pub(crate) fn random_id() -> (id: u128)
    ensures
        uuid_version(id) == 4,
        uuid_variant(id) == 2,
{
    uuid::Uuid::new_v4().as_u128()
}

/// Calls `uuid::Uuid::now_v7`: an identifier made from the clock and random bits,
/// whose version field is 7 and whose variant field is the RFC one.
#[verifier::external_body]
pub(crate) fn time_ordered_id() -> (id: u128)
    ensures
        uuid_version(id) == 7,
        uuid_variant(id) == 2,
{
    uuid::Uuid::now_v7().as_u128()
}

/// Calls `Display` of `uuid::Uuid` (through `to_string`), which writes the
/// lower-case hyphenated form.
#[verifier::external_body]
pub(crate) fn uuid_to_text(id: u128) -> (text: String)
    ensures
        text@ == uuid_text(id),
{
    uuid::Uuid::from_u128(id).to_string()
}

/// Calls `uuid::Uuid::parse_str`, which accepts exactly the forms of `uuid_parse`.
#[verifier::external_body]
pub(crate) fn uuid_from_text(text: &str) -> (id: Option<u128>)
    ensures
        id == uuid_parse(text@),
{
    match uuid::Uuid::parse_str(text) {
        Ok(u) => Some(u.as_u128()),
        Err(_) => None,
    }
}

/// The text form of an identifier.
pub fn format_id(id: u128) -> (text: String)
    ensures
        text@ == uuid_text(id),
{
    uuid_to_text(id)
}

/// Reads an identifier from text; `None` when the text is no UUID.
pub fn parse_id(text: &str) -> (id: Option<u128>)
    ensures
        id == uuid_parse(text@),
{
    uuid_from_text(text)
}

/// The digits of the hyphenated text, without the hyphens.
pub open spec fn uuid_digits(id: u128) -> Seq<char> {
    Seq::new(32, |k: int| lower_hex_digit(nibble(id, k)))
}

proof fn lemma_pow16_positive(n: nat)
    ensures
        pow16(n) > 0,
    decreases n,
{
    if n > 0 {
        lemma_pow16_positive((n - 1) as nat);
    }
}

proof fn lemma_lower_hex_digit_value(n: int)
    requires
        0 <= n < 16,
    ensures
        hex_value(lower_hex_digit(n)) == Some(n),
{
    let digits = seq!['0', '1', '2', '3', '4', '5', '6', '7', '8', '9', 'a', 'b', 'c', 'd', 'e', 'f'];
    assert(lower_hex_digit(n) == digits[n]);
    // One case per digit, so that each literal is evaluated.
    if n == 0 {
    } else if n == 1 {
    } else if n == 2 {
    } else if n == 3 {
    } else if n == 4 {
    } else if n == 5 {
    } else if n == 6 {
    } else if n == 7 {
    } else if n == 8 {
    } else if n == 9 {
    } else if n == 10 {
    } else if n == 11 {
    } else if n == 12 {
    } else if n == 13 {
    } else if n == 14 {
    } else {
    }
}

proof fn lemma_digits_prefix(id: u128, k: int)
    requires
        0 <= k <= 32,
    ensures
        hex_number(uuid_digits(id).take(k)) == (id as int) / pow16((32 - k) as nat),
        all_hex(uuid_digits(id).take(k)),
    decreases k,
{
    let d = uuid_digits(id);
    if k == 0 {
        assert(d.take(0).len() == 0);
        assert(pow16(32) == 0x1_0000_0000_0000_0000_0000_0000_0000_0000) by {
            reveal_with_fuel(pow16, 33);
        }
        vstd::arithmetic::div_mod::lemma_basic_div(id as int, pow16(32));
    } else {
        lemma_digits_prefix(id, k - 1);
        let m = (32 - k) as nat;
        lemma_pow16_positive(m);
        let x = id as int;
        let q = x / pow16(m);
        let n = q % 16;
        assert(nibble(id, k - 1) == n);
        lemma_lower_hex_digit_value(n);
        assert(d.take(k).drop_last() =~= d.take(k - 1));
        assert(d.take(k).last() == lower_hex_digit(n));
        assert(pow16((32 - (k - 1)) as nat) == 16 * pow16(m));
        assert(x / pow16((32 - (k - 1)) as nat) == q / 16) by {
            vstd::arithmetic::div_mod::lemma_div_denominator(x, pow16(m), 16);
            vstd::arithmetic::mul::lemma_mul_is_commutative(pow16(m), 16);
        }
        assert((q / 16) * 16 + n == q) by {
            vstd::arithmetic::div_mod::lemma_fundamental_div_mod(q, 16);
        }
        assert forall|i: int| 0 <= i < k implies (#[trigger] hex_value(d.take(k)[i])) is Some by {
            if i < k - 1 {
                assert(d.take(k)[i] == d.take(k - 1)[i]);
            }
        }
    }
}

/// Parsing the text form of an identifier gives the identifier back.
pub proof fn lemma_parse_format_roundtrip(id: u128)
    ensures
        uuid_parse(uuid_text(id)) == Some(id),
{
    let t = uuid_text(id);
    let d = uuid_digits(id);
    lemma_digits_prefix(id, 32);
    assert(d.take(32) =~= d);
    let joined = t.subrange(0, 8) + t.subrange(9, 13) + t.subrange(14, 18) + t.subrange(19, 23)
        + t.subrange(24, 36);
    assert(joined =~= d);
    assert(t[8] == '-' && t[13] == '-' && t[18] == '-' && t[23] == '-');
    assert(hex_number(d) == id as int);
}

} // verus!
