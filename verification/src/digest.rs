//! SHA-256 digests and their hexadecimal rendering.
use vstd::prelude::*;
use sha2::Digest;
use crate::text::{hex_byte, hex_digits, hex_text, lower_hex};

verus! {

/// The SHA-256 digest of a byte sequence.
pub uninterp spec fn sha256(data: Seq<u8>) -> Seq<u8>;

/// Computes the SHA-256 digest of `data` with `sha2::Sha256` (`new`, `update`,
/// `finalize`). The contract names the result `sha256` of the bytes and claims
/// the digest's fixed length of 32 bytes.
#[verifier::external_body]
pub(crate) fn sha256_digest(data: &[u8]) -> (r: Vec<u8>)
    ensures
        r@ == sha256(data@),
        r@.len() == 32,
{
    let mut hasher = sha2::Sha256::new();
    hasher.update(data);
    hasher.finalize().to_vec()
}

} // verus!

verus! {

/// The lowercase hexadecimal text of the SHA-256 digest of `data`.
pub open spec fn sha256_hex(data: Seq<u8>) -> Seq<char> {
    hex_text(sha256(data))
}

/// Hex text has two digits per byte.
pub proof fn lemma_hex_text_len(bytes: Seq<u8>)
    ensures
        hex_text(bytes).len() == 2 * bytes.len(),
    decreases bytes.len(),
{
    if bytes.len() > 0 {
        lemma_hex_text_len(bytes.drop_last());
    }
}

/// Every character of hex text is a lowercase hexadecimal digit.
pub proof fn lemma_hex_text_digits(bytes: Seq<u8>)
    ensures
        forall|i: int| 0 <= i < hex_text(bytes).len() ==> hex_digits().contains(#[trigger] hex_text(bytes)[i]),
    decreases bytes.len(),
{
    if bytes.len() > 0 {
        lemma_hex_text_digits(bytes.drop_last());
        lemma_hex_text_len(bytes.drop_last());
        let b = bytes.last();
        assert(hex_digits()[(b / 16) as int] == hex_byte(b)[0]);
        assert(hex_digits()[(b % 16) as int] == hex_byte(b)[1]);
        let h = hex_text(bytes);
        assert forall|i: int| 0 <= i < h.len() implies hex_digits().contains(#[trigger] h[i]) by {
            let p = hex_text(bytes.drop_last());
            if i < p.len() {
                assert(h[i] == p[i]);
            } else if i == p.len() {
                assert(h[i] == hex_digits()[(b / 16) as int]);
            } else {
                assert(h[i] == hex_digits()[(b % 16) as int]);
            }
        }
    }
}

/// A SHA-256 digest renders as 64 lowercase hexadecimal digits.
pub proof fn lemma_sha256_hex_shape(data: Seq<u8>)
    requires
        sha256(data).len() == 32,
    ensures
        sha256_hex(data).len() == 64,
        forall|i: int| 0 <= i < 64 ==> hex_digits().contains(#[trigger] sha256_hex(data)[i]),
{
    lemma_hex_text_len(sha256(data));
    lemma_hex_text_digits(sha256(data));
}

/// Renders the SHA-256 digest of `data` as lowercase hexadecimal text.
pub fn sha256_hex_of(data: &[u8]) -> (r: String)
    ensures
        r@ == sha256_hex(data@),
        r@.len() == 64,
{
    let digest = sha256_digest(data);
    proof {
        lemma_hex_text_len(digest@);
    }
    lower_hex(digest.as_slice())
}

} // verus!
