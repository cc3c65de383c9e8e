//! Digests of answers and guesses.
//!
//! An answer is never stored as written. What is kept is the lowercase
//! hexadecimal form of the Keccak-256 digest of its UTF-8 bytes, and a guess
//! is checked by digesting it the same way.
use sha3::{Digest, Keccak256};
use vstd::prelude::*;
use vstd::utf8::{encode_utf8, encode_utf8_decode_utf8};

verus! {

/// The Keccak-256 digest of a byte string.
pub uninterp spec fn keccak256_of(data: Seq<u8>) -> Seq<u8>;

/// The lowercase form of a text, as `str::to_lowercase` defines it.
pub uninterp spec fn lowercase_of(text: Seq<char>) -> Seq<char>;

/// The sixteen lowercase hexadecimal digits, in order.
pub open spec fn hex_digits() -> Seq<char> {
    seq!['0', '1', '2', '3', '4', '5', '6', '7', '8', '9', 'a', 'b', 'c', 'd', 'e', 'f']
}

/// The lowercase hexadecimal form of a byte string: two digits for each
/// byte, the high half first.
pub open spec fn hex_lower(bytes: Seq<u8>) -> Seq<char> {
    Seq::new(
        2 * bytes.len(),
        |i: int|
            if i % 2 == 0 {
                hex_digits()[bytes[i / 2] as int / 16]
            } else {
                hex_digits()[bytes[i / 2] as int % 16]
            },
    )
}

/// The digest under which a text is stored and compared.
pub open spec fn digest_of(text: Seq<char>) -> Seq<char> {
    hex_lower(keccak256_of(encode_utf8(text)))
}

/// Two texts are case variants of each other when they have the same
/// lowercase form.
pub open spec fn case_variants(x: Seq<char>, y: Seq<char>) -> bool {
    lowercase_of(x) == lowercase_of(y)
}

/// Calls `sha3::Keccak256::digest` (the `digest` crate's one-shot
/// `Digest::digest`) on the bytes and copies the output array into a vector.
/// Trusted: the result is the Keccak-256 digest of the input, which is 32
/// bytes long whatever the input.
#[verifier::external_body]
fn keccak256(data: &[u8]) -> (out: Vec<u8>)
    ensures
        out@ == keccak256_of(data@),
        out@.len() == 32,
{
    Keccak256::digest(data).to_vec()
}

/// Calls `hex::encode`. Trusted: the result holds two lowercase hexadecimal
/// digits for each input byte, in the order of the bytes, the high half of a
/// byte before its low half.
#[verifier::external_body]
fn hex_encode(bytes: &[u8]) -> (out: String)
    ensures
        out@ == hex_lower(bytes@),
{
    hex::encode(bytes)
}

/// Calls `str::to_lowercase`. Trusted: the result is the lowercase form of
/// the input, a function of the input alone.
#[verifier::external_body]
pub(crate) fn lowercase(text: &str) -> (out: String)
    ensures
        out@ == lowercase_of(text@),
{
    text.to_lowercase()
}

/// Digests a text: Keccak-256 over its UTF-8 bytes, written as 64 lowercase
/// hexadecimal digits.
pub fn text_digest(text: &str) -> (out: String)
    ensures
        out@ == digest_of(text@),
        out@.len() == 64,
{
    let hashed = keccak256(text.as_bytes());
    hex_encode(hashed.as_slice())
}

/// Tells whether two texts are the same, walking both to the end whatever
/// it finds on the way, so that the work done does not show where they differ.
pub fn same_text(a: &str, b: &str) -> (same: bool)
    ensures
        same == (a@ == b@),
{
    let x = a.as_bytes();
    let y = b.as_bytes();
    proof {
        encode_utf8_decode_utf8(a@);
        encode_utf8_decode_utf8(b@);
    }
    if x.len() != y.len() {
        return false;
    }
    let mut difference: u8 = 0;
    let mut i: usize = 0;
    while i < x.len()
        invariant
            i <= x.len(),
            x.len() == y.len(),
            difference == 0 <==> forall|j: int| 0 <= j < i ==> x@[j] == y@[j],
        decreases x.len() - i,
    {
        let p: u8 = x[i];
        let q: u8 = y[i];
        assert(((difference | (p ^ q)) == 0) <==> (difference == 0 && p == q)) by (bit_vector);
        difference = difference | (p ^ q);
        i += 1;
    }
    proof {
        if difference == 0 {
            assert(x@ =~= y@);
        }
    }
    difference == 0
}

} // verus!
