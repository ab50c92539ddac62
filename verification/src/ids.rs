//! Identifiers (UUIDs as 128-bit numbers) and their text form.

use vstd::prelude::*;
use std::collections::hash_map::DefaultHasher;
use std::hash::Hasher;
use vstd::std_specs::hash::DefaultHasherAdditionalSpecFns;
use vstd::utf8::encode_utf8;

verus! {

/// The lowercase hexadecimal digit for a value below 16.
pub open spec fn hex_digit(n: int) -> char {
    if n < 10 {
        (48 + n) as char
    } else {
        (87 + n) as char
    }
}

/// The `k`-th hexadecimal digit of a UUID, counted from the most significant.
pub open spec fn uuid_nibble(id: u128, k: int) -> int {
    ((id >> ((4 * (31 - k)) as u128)) & 15u128) as int
}

/// The digits `from..to` of a UUID.
pub open spec fn uuid_hex(id: u128, from: int, to: int) -> Seq<char> {
    Seq::new((to - from) as nat, |j: int| hex_digit(uuid_nibble(id, from + j)))
}

/// The hyphenated lowercase text of a UUID (8-4-4-4-12 digits).
pub open spec fn uuid_text(id: u128) -> Seq<char> {
    uuid_hex(id, 0, 8) + seq!['-'] + uuid_hex(id, 8, 12) + seq!['-'] + uuid_hex(id, 12, 16)
        + seq!['-'] + uuid_hex(id, 16, 20) + seq!['-'] + uuid_hex(id, 20, 32)
}

/// What `uuid::Uuid::parse_str` reads from a text (it accepts the simple,
/// hyphenated, braced and URN forms, in either case).
pub uninterp spec fn uuid_parsed(s: Seq<char>) -> Option<u128>;

/// `Uuid::from_u128(id).to_string()`: the hyphenated lowercase form, which
/// `Uuid::parse_str` reads back as the same UUID.
#[verifier::external_body]
pub(crate) fn uuid_string(id: u128) -> (r: String)
    ensures
        r@ == uuid_text(id),
        uuid_parsed(r@) == Some(id),
{
    uuid::Uuid::from_u128(id).to_string()
}

/// `Uuid::parse_str`, as a 128-bit number.
#[verifier::external_body]
pub(crate) fn parse_uuid(s: &str) -> (r: Option<u128>)
    ensures
        r == uuid_parsed(s@),
{
    match uuid::Uuid::parse_str(s) {
        Ok(u) => Some(u.as_u128()),
        Err(_) => None,
    }
}

/// `Uuid::now_v7()`: a fresh time-ordered UUID; nothing is known of its value.
#[verifier::external_body]
pub(crate) fn new_uuid_v7() -> (r: u128) {
    uuid::Uuid::now_v7().as_u128()
}

/// What an unkeyed `DefaultHasher` yields for a string: `str`'s `Hash`
/// writes its UTF-8 bytes and then the byte `0xFF`.
pub open spec fn default_str_hash(s: Seq<char>) -> u64 {
    DefaultHasher::spec_finish(seq![encode_utf8(s), seq![0xFFu8]])
}

/// Hashes a string with a fresh `DefaultHasher`, as `str::hash` feeds it.
fn hash_str(s: &str) -> (r: u64)
    ensures
        r == default_str_hash(s@),
{
    let mut hasher = DefaultHasher::new();
    hasher.write(s.as_bytes());
    let end: [u8; 1] = [0xFFu8];
    hasher.write(&end);
    proof {
        assert(end@ =~= seq![0xFFu8]);
        assert(hasher@ =~= seq![encode_utf8(s@), seq![0xFFu8]]);
    }
    hasher.finish()
}

/// The UUID whose first eight bytes are zero and whose last eight bytes are
/// the little-endian bytes of `h`.
pub open spec fn uuid_from_low_le_bytes(h: u64) -> u128 {
    (((h >> 0u64) & 0xff) as u128) << 56u128
        | (((h >> 8u64) & 0xff) as u128) << 48u128
        | (((h >> 16u64) & 0xff) as u128) << 40u128
        | (((h >> 24u64) & 0xff) as u128) << 32u128
        | (((h >> 32u64) & 0xff) as u128) << 24u128
        | (((h >> 40u64) & 0xff) as u128) << 16u128
        | (((h >> 48u64) & 0xff) as u128) << 8u128
        | (((h >> 56u64) & 0xff) as u128)
}

/// A deterministic UUID derived from an e-mail address.
pub fn email_to_uuid(email: &str) -> (r: u128)
    ensures
        r == uuid_from_low_le_bytes(default_str_hash(email@)),
{
    let h = hash_str(email);
    (((h >> 0u64) & 0xff) as u128) << 56u128
        | (((h >> 8u64) & 0xff) as u128) << 48u128
        | (((h >> 16u64) & 0xff) as u128) << 40u128
        | (((h >> 24u64) & 0xff) as u128) << 32u128
        | (((h >> 32u64) & 0xff) as u128) << 24u128
        | (((h >> 40u64) & 0xff) as u128) << 16u128
        | (((h >> 48u64) & 0xff) as u128) << 8u128
        | (((h >> 56u64) & 0xff) as u128)
}

} // verus!
