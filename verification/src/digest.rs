//! Digest and hex primitives behind the block fingerprint.
//!
//! The digest itself is computed by an outside implementation and is
//! only named here; the hex rendering has a complete specification.

use vstd::prelude::*;

use sha2::Digest;

verus! {

/// The SHA-256 digest of a byte sequence: a pure function of the input
/// bytes, named but not defined here.
pub uninterp spec fn spec_sha256(data: Seq<u8>) -> Seq<u8>;

/// Relies on sha2::Sha256 through Digest::digest: the digest depends on
/// the input bytes alone and is 32 bytes long.
#[verifier::external_body]
fn sha256_digest(data: &[u8]) -> (r: Vec<u8>)
    ensures
        r@ == spec_sha256(data@),
        r@.len() == 32,
{
    sha2::Sha256::digest(data).to_vec()
}

/// Lowercase hex digit for a value below 16.
pub open spec fn hex_digit(d: u8) -> char {
    if d == 0 {
        '0'
    } else if d == 1 {
        '1'
    } else if d == 2 {
        '2'
    } else if d == 3 {
        '3'
    } else if d == 4 {
        '4'
    } else if d == 5 {
        '5'
    } else if d == 6 {
        '6'
    } else if d == 7 {
        '7'
    } else if d == 8 {
        '8'
    } else if d == 9 {
        '9'
    } else if d == 10 {
        'a'
    } else if d == 11 {
        'b'
    } else if d == 12 {
        'c'
    } else if d == 13 {
        'd'
    } else if d == 14 {
        'e'
    } else {
        'f'
    }
}

/// Lowercase hex rendering of a byte sequence: two digits per byte,
/// high nibble first, in input order.
pub open spec fn spec_hex_lower(data: Seq<u8>) -> Seq<char>
    decreases data.len(),
{
    if data.len() == 0 {
        Seq::empty()
    } else {
        spec_hex_lower(data.drop_last()).push(hex_digit(data.last() / 16)).push(
            hex_digit(data.last() % 16),
        )
    }
}

pub proof fn lemma_hex_lower_len(data: Seq<u8>)
    ensures
        spec_hex_lower(data).len() == 2 * data.len(),
    decreases data.len(),
{
    if data.len() > 0 {
        lemma_hex_lower_len(data.drop_last());
    }
}

/// Relies on hex::encode: the result is the input rendered as lowercase
/// hex, two digits per byte, in order.
#[verifier::external_body]
fn hex_lower(data: &[u8]) -> (r: String)
    ensures
        r@ == spec_hex_lower(data@),
{
    hex::encode(data)
}

/// The session-local fingerprint of a byte string: the first eight
/// digest bytes, rendered as sixteen lowercase hex characters.
pub open spec fn spec_fingerprint_bytes(data: Seq<u8>) -> Seq<char> {
    spec_hex_lower(spec_sha256(data).take(8))
}

/// Compute the fingerprint of `data`.
pub fn fingerprint_bytes(data: &[u8]) -> (r: String)
    ensures
        r@ == spec_fingerprint_bytes(data@),
        r@.len() == 16,
{
    let digest = sha256_digest(data);
    let mut prefix: Vec<u8> = Vec::new();
    let mut i: usize = 0;
    while i < 8
        invariant
            digest@.len() == 32,
            digest@ == spec_sha256(data@),
            i <= 8,
            prefix@ == spec_sha256(data@).take(i as int),
        decreases 8 - i,
    {
        prefix.push(digest[i]);
        assert(prefix@ =~= spec_sha256(data@).take(i + 1));
        i += 1;
    }
    let r = hex_lower(prefix.as_slice());
    proof {
        lemma_hex_lower_len(spec_sha256(data@).take(8));
    }
    r
}

} // verus!
