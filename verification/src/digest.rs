//! SHA-256 digests written as lowercase hexadecimal text.

use vstd::prelude::*;
use sha2::{Digest, Sha256};
use crate::text::string_push;
use crate::ids::hex_digit;

verus! {

/// The SHA-256 digest of the UTF-8 bytes of a text.
pub uninterp spec fn sha256_of(input: Seq<char>) -> Seq<u8>;

/// `Sha256::digest` of the text's bytes: 32 bytes, a function of the text.
#[verifier::external_body]
fn sha256_digest(input: &str) -> (r: Vec<u8>)
    ensures
        r@ == sha256_of(input@),
        r@.len() == 32,
{
    Sha256::digest(input.as_bytes()).to_vec()
}

/// Two lowercase hexadecimal digits per byte, most significant first.
pub open spec fn hex_lower(bytes: Seq<u8>) -> Seq<char> {
    Seq::new(2 * bytes.len(), |i: int|
        if i % 2 == 0 {
            hex_digit(bytes[i / 2] as int / 16)
        } else {
            hex_digit(bytes[i / 2] as int % 16)
        })
}

fn hex_digit_char(n: u8) -> (c: char)
    requires
        n < 16,
    ensures
        c == hex_digit(n as int),
{
    if n < 10 {
        (48u8 + n) as char
    } else {
        (87u8 + n) as char
    }
}

/// The lowercase hexadecimal SHA-256 digest of a text.
pub fn sha256(input: &str) -> (r: String)
    ensures
        r@ == hex_lower(sha256_of(input@)),
        r@.len() == 64,
{
    let d = sha256_digest(input);
    let mut r = String::new();
    let mut i: usize = 0;
    while i < d.len()
        invariant
            i <= d.len(),
            d@ == sha256_of(input@),
            r@ =~= hex_lower(d@.take(i as int)),
        decreases d.len() - i,
    {
        let b = d[i];
        string_push(&mut r, hex_digit_char(b / 16));
        string_push(&mut r, hex_digit_char(b % 16));
        proof {
            let t = d@.take(i + 1);
            assert(t.take(i as int) =~= d@.take(i as int));
            assert(hex_lower(t) =~= hex_lower(d@.take(i as int)).push(hex_digit(b as int / 16)).push(hex_digit(b as int % 16)));
        }
        i = i + 1;
    }
    proof {
        assert(d@.take(d.len() as int) =~= d@);
    }
    r
}

} // verus!
