use vstd::prelude::*;
use vstd::utf8::encode_utf8;
use sha2::Digest;

verus! {

/// The SHA-512 digest of a byte sequence: 64 bytes, a function of the
/// input alone. Named, not spelled out; sha2 computes it.
pub uninterp spec fn sha512_of(data: Seq<u8>) -> Seq<u8>;

/// Relies on sha2::Sha512::digest: the fixed 64-byte SHA-512 digest of
/// the input, depending on the input bytes alone.
#[verifier::external_body]
fn sha512_digest(data: &[u8]) -> (r: Vec<u8>)
    ensures
        r@ == sha512_of(data@),
        r@.len() == 64,
{
    sha2::Sha512::digest(data).to_vec()
}

/// The lowercase hexadecimal digit of a value below sixteen.
pub open spec fn hex_digit(n: int) -> char {
    if n == 0 {
        '0'
    } else if n == 1 {
        '1'
    } else if n == 2 {
        '2'
    } else if n == 3 {
        '3'
    } else if n == 4 {
        '4'
    } else if n == 5 {
        '5'
    } else if n == 6 {
        '6'
    } else if n == 7 {
        '7'
    } else if n == 8 {
        '8'
    } else if n == 9 {
        '9'
    } else if n == 10 {
        'a'
    } else if n == 11 {
        'b'
    } else if n == 12 {
        'c'
    } else if n == 13 {
        'd'
    } else if n == 14 {
        'e'
    } else {
        'f'
    }
}

/// The lowercase hexadecimal spelling of a byte sequence: two digits per
/// byte, most significant nibble first.
pub open spec fn hex_of(data: Seq<u8>) -> Seq<char>
    decreases data.len(),
{
    if data.len() == 0 {
        Seq::empty()
    } else {
        seq![
            hex_digit(data.first() as int / 16),
            hex_digit(data.first() as int % 16),
        ] + hex_of(data.drop_first())
    }
}

/// Relies on hex::encode: the lowercase hexadecimal spelling of the
/// input, two digits per byte, most significant nibble first.
#[verifier::external_body]
fn hex_encode(data: &[u8]) -> (r: String)
    ensures
        r@ == hex_of(data@),
{
    hex::encode(data)
}

/// The hex-encoded SHA-512 digest of a byte sequence, as every hash field
/// of the document tree spells it.
pub open spec fn digest_hex_of(data: Seq<u8>) -> Seq<char> {
    hex_of(sha512_of(data))
}

/// The hex-encoded SHA-512 digest of a document, computed over the
/// document's UTF-8 bytes: the exact bytes the document is served as.
pub open spec fn doc_digest_of(doc: Seq<char>) -> Seq<char> {
    digest_hex_of(encode_utf8(doc))
}

/// Hashes raw bytes to the hex digest string stored in hash fields.
pub fn hash_bytes_hex(data: &[u8]) -> (r: String)
    ensures
        r@ == digest_hex_of(data@),
{
    let digest = sha512_digest(data);
    hex_encode(digest.as_slice())
}

/// Hashes a document string over its UTF-8 bytes.
pub fn hash_str_hex(doc: &str) -> (r: String)
    ensures
        r@ == doc_digest_of(doc@),
{
    hash_bytes_hex(doc.as_bytes())
}

} // verus!
