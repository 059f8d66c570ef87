//! UUIDs as bytes and as text: the forms that a UUID is read from, the
//! hyphenated lower-case form that one is written in, and the calls into the
//! `uuid` crate that read, write and generate them.

use vstd::prelude::*;

verus! {

/// Whether `c` is an ASCII hexadecimal digit, of either case.
pub open spec fn is_hex_digit(c: u8) -> bool {
    (0x30 <= c <= 0x39) || (0x61 <= c <= 0x66) || (0x41 <= c <= 0x46)
}

/// The value of a hexadecimal digit.
pub open spec fn hex_value(c: u8) -> int {
    if c <= 0x39 {
        c - 0x30
    } else if c >= 0x61 {
        c - 0x61 + 10
    } else {
        c - 0x41 + 10
    }
}

pub open spec fn all_hex(s: Seq<u8>) -> bool {
    forall|i: int| 0 <= i < s.len() ==> is_hex_digit(#[trigger] s[i])
}

/// The lower-case hexadecimal digit of a nibble.
pub open spec fn hex_lower(n: int) -> u8 {
    if n < 10 {
        (0x30 + n) as u8
    } else {
        (0x61 + n - 10) as u8
    }
}

pub open spec fn ascii_lower(c: u8) -> u8 {
    if 0x41 <= c <= 0x5a {
        (c + 0x20) as u8
    } else {
        c
    }
}

/// A hyphenated form: 36 bytes with hyphens at 8, 13, 18 and 23.
pub open spec fn hyphens_in_place(s: Seq<u8>) -> bool {
    s.len() == 36 && s[8] == 0x2d && s[13] == 0x2d && s[18] == 0x2d && s[23] == 0x2d
}

/// The 32 digits of a hyphenated form.
pub open spec fn hyphenated_digits(s: Seq<u8>) -> Seq<u8> {
    s.subrange(0, 8) + s.subrange(9, 13) + s.subrange(14, 18) + s.subrange(19, 23) + s.subrange(
        24,
        36,
    )
}

/// The prefix of the URN form, `urn:uuid:`, in lower case.
pub open spec fn urn_prefix() -> Seq<u8> {
    seq![0x75u8, 0x72, 0x6e, 0x3a, 0x75, 0x75, 0x69, 0x64, 0x3a]
}

/// The digits of a text in one of the four shapes of a UUID, or `None`:
/// 32 digits; the hyphenated form; the hyphenated form in braces; and the
/// hyphenated form after `urn:uuid:` in any case.
pub open spec fn uuid_digits(s: Seq<u8>) -> Option<Seq<u8>> {
    if s.len() == 32 {
        Some(s)
    } else if hyphens_in_place(s) {
        Some(hyphenated_digits(s))
    } else if s.len() == 38 && s[0] == 0x7b && s[37] == 0x7d && hyphens_in_place(
        s.subrange(1, 37),
    ) {
        Some(hyphenated_digits(s.subrange(1, 37)))
    } else if s.len() == 45 && s.subrange(0, 9).map_values(|c: u8| ascii_lower(c)) == urn_prefix()
        && hyphens_in_place(s.subrange(9, 45)) {
        Some(hyphenated_digits(s.subrange(9, 45)))
    } else {
        None
    }
}

/// Whether `s` is the text of a UUID.
pub open spec fn uuid_text_ok(s: Seq<u8>) -> bool {
    uuid_digits(s) matches Some(d) && all_hex(d)
}

/// The 16 bytes that 32 hexadecimal digits spell.
pub open spec fn bytes_of_digits(d: Seq<u8>) -> Seq<u8> {
    Seq::new(16, |i: int| (hex_value(d[2 * i]) * 16 + hex_value(d[2 * i + 1])) as u8)
}

/// The 32 lower-case digits of the bytes `u`.
pub open spec fn simple_text(u: Seq<u8>) -> Seq<u8> {
    Seq::new(
        32,
        |i: int|
            if i % 2 == 0 {
                hex_lower(u[i / 2] as int / 16)
            } else {
                hex_lower(u[i / 2] as int % 16)
            },
    )
}

/// The hyphenated lower-case text of the bytes `u`:
/// `xxxxxxxx-xxxx-xxxx-xxxx-xxxxxxxxxxxx`.
pub open spec fn hyphenated_text(u: Seq<u8>) -> Seq<u8> {
    let s = simple_text(u);
    s.subrange(0, 8) + seq![0x2du8] + s.subrange(8, 12) + seq![0x2du8] + s.subrange(12, 16) + seq![
        0x2du8,
    ] + s.subrange(16, 20) + seq![0x2du8] + s.subrange(20, 32)
}

/// The version number, the high nibble of byte 6.
pub open spec fn uuid_version(u: Seq<u8>) -> u8 {
    u[6] / 16
}

/// The variant of RFC 9562: the top two bits of byte 8 are `10`.
pub open spec fn rfc_variant(u: Seq<u8>) -> bool {
    u[8] / 64 == 2
}

/// `t` is the hyphenated lower-case text of a UUID of the RFC variant with
/// version `version`, whose node (bytes 10 to 15) starts with `node`.
pub open spec fn generated_text(t: Seq<u8>, version: u8, node: Seq<u8>) -> bool {
    exists|u: Seq<u8>|
        u.len() == 16 && uuid_version(u) == version && rfc_variant(u) && u.subrange(
            10,
            10 + node.len() as int,
        ) == node && #[trigger] hyphenated_text(u) == t
}

pub open spec fn not_hyphen(c: u8) -> bool {
    c != 0x2d
}

/// `s` with every hyphen taken out.
pub open spec fn without_hyphens(s: Seq<u8>) -> Seq<u8> {
    s.filter(|c: u8| not_hyphen(c))
}

/// Relies on `uuid::Uuid::try_parse_ascii`: it accepts exactly the texts of
/// `uuid_digits` whose digits are all hexadecimal, and returns the bytes that
/// they spell.
#[verifier::external_body]
pub(crate) fn parse_uuid(text: &[u8]) -> (r: Option<[u8; 16]>)
    ensures
        r is Some <==> uuid_text_ok(text@),
        r matches Some(b) ==> b@ == bytes_of_digits(uuid_digits(text@).unwrap()),
{
    match uuid::Uuid::try_parse_ascii(text) {
        Ok(u) => Some(u.into_bytes()),
        Err(_) => None,
    }
}

/// Relies on `uuid::fmt::Hyphenated::encode_lower`: it writes the 36 bytes of
/// the lower-case hyphenated form.
#[verifier::external_body]
pub(crate) fn hyphenated_lower(bytes: [u8; 16]) -> (r: [u8; 36])
    ensures
        r@ == hyphenated_text(bytes@),
{
    let mut buf = [0u8; 36];
    uuid::Uuid::from_bytes(bytes).hyphenated().encode_lower(&mut buf);
    buf
}

/// Relies on `uuid::Uuid::now_v1`: a version 1 UUID of the RFC variant from
/// the clock, whose last six bytes are `node`.
#[verifier::external_body]
pub(crate) fn now_v1(node: &[u8; 6]) -> (r: [u8; 16])
    ensures
        uuid_version(r@) == 1,
        rfc_variant(r@),
        r@.subrange(10, 16) == node@,
{
    uuid::Uuid::now_v1(node).into_bytes()
}

/// Relies on `uuid::Uuid::now_v6`: a version 6 UUID of the RFC variant from
/// the clock, whose last six bytes are `node`.
#[verifier::external_body]
pub(crate) fn now_v6(node: &[u8; 6]) -> (r: [u8; 16])
    ensures
        uuid_version(r@) == 6,
        rfc_variant(r@),
        r@.subrange(10, 16) == node@,
{
    uuid::Uuid::now_v6(node).into_bytes()
}

/// Relies on `uuid::Uuid::new_v4`: random bytes with version 4 and the RFC
/// variant set.
#[verifier::external_body]
pub(crate) fn new_v4() -> (r: [u8; 16])
    ensures
        uuid_version(r@) == 4,
        rfc_variant(r@),
{
    uuid::Uuid::new_v4().into_bytes()
}

/// Relies on `uuid::Uuid::now_v7`: a version 7 UUID of the RFC variant from
/// the clock and random bits.
#[verifier::external_body]
pub(crate) fn now_v7() -> (r: [u8; 16])
    ensures
        uuid_version(r@) == 7,
        rfc_variant(r@),
{
    uuid::Uuid::now_v7().into_bytes()
}

/// `s` with its hyphens taken out, the other bytes kept in order.
pub fn strip_hyphens(s: &[u8]) -> (r: Vec<u8>)
    ensures
        r@ == without_hyphens(s@),
{
    let mut out: Vec<u8> = Vec::new();
    let mut i: usize = 0;
    while i < s.len()
        invariant
            i <= s@.len(),
            out@ == without_hyphens(s@.subrange(0, i as int)),
        decreases s@.len() - i,
    {
        proof {
            reveal(Seq::filter);
            assert(s@.subrange(0, i + 1).drop_last() =~= s@.subrange(0, i as int));
        }
        if s[i] != 0x2d {
            out.push(s[i]);
        }
        i = i + 1;
    }
    assert(s@.subrange(0, s@.len() as int) =~= s@);
    out
}

} // verus!
