//! Content hashing for program images: the catalog keys programs by the
//! lowercase hexadecimal SHA-1 digest of their bytes.

use vstd::prelude::*;
use sha1::{Digest, Sha1};

verus! {

/// The SHA-1 digest of a byte sequence: a function of the bytes alone,
/// named here and computed by the outside hasher.
pub uninterp spec fn sha1_of(data: Seq<u8>) -> Seq<u8>;

/// The lowercase hexadecimal digit characters.
pub open spec fn spec_hex_digit(d: int) -> char
    recommends
        0 <= d <= 15,
{
    if d == 0 {
        '0'
    } else if d == 1 {
        '1'
    } else if d == 2 {
        '2'
    } else if d == 3 {
        '3'
    } else if d == 4 {
        '4'
    } else if d == 5 {
        '5'
    } else if d == 6 {
        '6'
    } else if d == 7 {
        '7'
    } else if d == 8 {
        '8'
    } else if d == 9 {
        '9'
    } else if d == 10 {
        'a'
    } else if d == 11 {
        'b'
    } else if d == 12 {
        'c'
    } else if d == 13 {
        'd'
    } else if d == 14 {
        'e'
    } else {
        'f'
    }
}

/// The lowercase hexadecimal rendering of a byte sequence: two digits per
/// byte, high nibble first.
pub open spec fn spec_hex(data: Seq<u8>) -> Seq<char>
    decreases data.len(),
{
    if data.len() == 0 {
        Seq::empty()
    } else {
        seq![
            spec_hex_digit(data[0] as int / 16),
            spec_hex_digit(data[0] as int % 16),
        ] + spec_hex(data.drop_first())
    }
}

/// Relies on sha1::Sha1 through the digest traits: the 20-byte SHA-1
/// digest of the input, a function of the bytes alone.
#[verifier::external_body]
fn sha1_digest(data: &[u8]) -> (digest: Vec<u8>)
    ensures
        digest@ == sha1_of(data@),
        digest@.len() == 20,
{
    let mut hasher = Sha1::new();
    hasher.update(data);
    hasher.finalize().to_vec()
}

/// Relies on hex::encode: the lowercase hexadecimal rendering of the
/// bytes, two digits per byte.
#[verifier::external_body]
fn to_hex(data: &Vec<u8>) -> (text: String)
    ensures
        text@ == spec_hex(data@),
{
    hex::encode(data)
}

/// The lowercase hexadecimal SHA-1 digest of a program image: the form in
/// which the catalog names a program's bytes.
pub fn calculate_sha1(data: &[u8]) -> (text: String)
    ensures
        text@ == spec_hex(sha1_of(data@)),
        text@.len() == 40,
{
    let digest = sha1_digest(data);
    proof {
        lemma_hex_len(digest@);
    }
    to_hex(&digest)
}

/// Law: the hexadecimal rendering is two characters per byte.
pub proof fn lemma_hex_len(data: Seq<u8>)
    ensures
        spec_hex(data).len() == 2 * data.len(),
    decreases data.len(),
{
    if data.len() > 0 {
        lemma_hex_len(data.drop_first());
    }
}

} // verus!
