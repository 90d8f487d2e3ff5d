use vstd::prelude::*;
use sha2::Digest;

verus! {

/// The SHA-512 digest of `data`, as `sha2::Sha512` computes it.
pub uninterp spec fn sha512_digest(data: Seq<u8>) -> Seq<u8>;

/// Calls `<sha2::Sha512 as sha2::Digest>::digest`, which feeds `data` to a fresh
/// hasher and finalizes it. Claimed: the result is `sha512_digest` of the input,
/// and it is 64 bytes long (the `U64` output size of `Sha512`). Nothing else of the
/// digest is stated.
#[verifier::external_body]
fn sha512(data: &[u8]) -> (res: Vec<u8>)
    ensures
        res@ == sha512_digest(data@),
        res@.len() == 64,
{
    sha2::Sha512::digest(data).to_vec()
}

/// The lowercase hexadecimal character for a nibble `d < 16`.
pub open spec fn hex_char(d: nat) -> char {
    if d < 10 {
        crate::text::digit_char(d)
    } else if d == 10 { 'a' }
    else if d == 11 { 'b' }
    else if d == 12 { 'c' }
    else if d == 13 { 'd' }
    else if d == 14 { 'e' }
    else { 'f' }
}

/// Lowercase hexadecimal text of `data`: two characters per byte, high nibble first.
pub open spec fn hex_lower(data: Seq<u8>) -> Seq<char>
    decreases data.len(),
{
    if data.len() == 0 {
        Seq::empty()
    } else {
        seq![hex_char(data[0] as nat / 16), hex_char(data[0] as nat % 16)] + hex_lower(data.drop_first())
    }
}

/// Calls `hex::encode`, which maps each byte to its high and then its low nibble
/// through the table `0123456789abcdef`. Claimed: the result is `hex_lower` of the input.
#[verifier::external_body]
fn hex_encode(data: &[u8]) -> (res: String)
    ensures
        res@ == hex_lower(data@),
{
    hex::encode(data)
}

/// The lowercase hexadecimal SHA-512 digest of `content`, as the launcher compares
/// it with the hash recorded for a file.
pub fn file_hash_hex(content: &[u8]) -> (res: String)
    ensures
        res@ == hex_lower(sha512_digest(content@)),
        res@.len() == 128,
{
    let digest = sha512(content);
    let res = hex_encode(digest.as_slice());
    proof { lemma_hex_lower_len(digest@); }
    res
}

/// Hex text is twice as long as the bytes it encodes.
pub proof fn lemma_hex_lower_len(data: Seq<u8>)
    ensures
        hex_lower(data).len() == 2 * data.len(),
    decreases data.len(),
{
    if data.len() > 0 {
        lemma_hex_lower_len(data.drop_first());
    }
}

/// Whether a computed digest text is the recorded one: the launcher accepts a file
/// exactly when the two texts are equal.
pub fn hash_matches(digest: &String, expected: &String) -> (res: bool)
    ensures
        res == (digest@ == expected@),
{
    digest.eq(expected)
}

} // verus!
