//! Unique identifiers, held as the 128 bits of a UUID, and the calls into the
//! `uuid` crate that make, print and parse them.
use vstd::prelude::*;

verus! {

/// `uuid::Error`, the error `Uuid::parse_str` reports.
#[verifier::external_type_specification]
#[verifier::external_body]
pub struct ExUuidError(uuid::Error);

/// A lower-case hexadecimal digit.
pub open spec fn hex_digit(d: nat) -> char {
    if d < 10 {
        ('0' as nat + d) as char
    } else {
        ('a' as nat + (d - 10)) as char
    }
}

/// The last `n` hexadecimal digits of `v`, most significant first.
pub open spec fn hex_digits(v: nat, n: nat) -> Seq<char>
    decreases n,
{
    if n == 0 {
        seq![]
    } else {
        hex_digits(v / 16, (n - 1) as nat).push(hex_digit(v % 16))
    }
}

/// The hyphenated lower-case text that `Uuid::to_string` writes for the UUID
/// with these 128 bits: 32 hexadecimal digits in groups of 8, 4, 4, 4 and 12.
pub open spec fn uuid_text(bits: u128) -> Seq<char> {
    let h = hex_digits(bits as nat, 32);
    h.subrange(0, 8) + "-"@ + h.subrange(8, 12) + "-"@ + h.subrange(12, 16) + "-"@
        + h.subrange(16, 20) + "-"@ + h.subrange(20, 32)
}

/// The bits of the UUID that `Uuid::parse_str` reads from a text, or `None`
/// where it reports an error.
pub uninterp spec fn uuid_parse(s: Seq<char>) -> Option<u128>;

/// Whether 128 bits are those of a random UUID: version 4 in the version
/// nibble (bits 76 to 79) and the RFC 4122 variant `10` in bits 62 and 63.
pub open spec fn random_uuid_bits(bits: u128) -> bool {
    &&& (bits >> 76u128) & 0xfu128 == 4
    &&& (bits >> 62u128) & 0x3u128 == 2
}

/// Draws a fresh random UUID with `Uuid::new_v4` and returns its bits. The
/// other bits are random; `new_v4` masks in the version (4) and the variant
/// (RFC 4122), so the result is `random_uuid_bits`.
#[verifier::external_body]
pub(crate) fn new_uuid_bits() -> (r: u128)
    ensures
        random_uuid_bits(r),
{
    uuid::Uuid::new_v4().as_u128()
}

/// Writes a UUID with `Uuid::to_string`: the result is `uuid_text` of the
/// bits, the hyphenated form that `Uuid::parse_str` reads back as the same
/// UUID.
#[verifier::external_body]
pub(crate) fn uuid_to_text(bits: u128) -> (r: String)
    ensures
        r@ == uuid_text(bits),
        uuid_parse(r@) == Some(bits),
{
    uuid::Uuid::from_u128(bits).to_string()
}

/// The message of a `uuid::Error` (its `Display` text).
#[verifier::external_body]
pub(crate) fn uuid_error_text(e: &uuid::Error) -> String {
    e.to_string()
}

/// Reads a UUID with `Uuid::parse_str`: `Ok` exactly where `uuid_parse` of
/// the text is some bits, and then with those bits.
#[verifier::external_body]
pub(crate) fn parse_uuid(s: &str) -> (r: Result<u128, uuid::Error>)
    ensures
        match r {
            Ok(bits) => uuid_parse(s@) == Some(bits),
            Err(_) => uuid_parse(s@) is None,
        },
{
    uuid::Uuid::parse_str(s).map(|u| u.as_u128())
}

} // verus!
