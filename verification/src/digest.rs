//! The digests and encodings that the gateway takes from outside crates.
//! Their results are named here and computed there: nothing in this crate
//! says what a digest or an encoding is on given data.

use vstd::prelude::*;

verus! {

/// The SHA-1 digest of `data`, as `sha1::Sha1` computes it.
pub uninterp spec fn sha1_digest(data: Seq<u8>) -> Seq<u8>;

/// The base64 text of `data` in the standard alphabet with padding, as
/// `base64::encode` writes it.
pub uninterp spec fn base64_encoding(data: Seq<u8>) -> Seq<char>;

/// Whether the base64 text of data of `len` bytes has a length that fits
/// the machine's word.
pub open spec fn base64_fits(len: nat) -> bool {
    4 * (len / 3) + 4 <= usize::MAX
}

/// Calls `Digest::digest` of `sha1::Sha1` on `data` and copies the digest
/// out. Claimed without proof: the digest is a function of the data alone,
/// and has twenty bytes, the output size that the outside crate declares.
#[verifier::external_body]
pub(crate) fn sha1_of(data: &[u8]) -> (digest: Vec<u8>)
    ensures
        digest@ == sha1_digest(data@),
        digest@.len() == 20,
{
    <sha1::Sha1 as sha1::Digest>::digest(data).to_vec()
}

/// Calls `base64::encode` on `data`. Claimed without proof: the text is a
/// function of the data alone. The outside function panics where the
/// length of the text does not fit the machine's word, so such data is
/// kept out.
#[verifier::external_body]
pub(crate) fn base64_of(data: &[u8]) -> (text: String)
    requires
        base64_fits(data@.len()),
    ensures
        text@ == base64_encoding(data@),
{
    base64::encode(data)
}

/// Calls `Rng::fill` of `rand::thread_rng()` on sixteen bytes. Claimed
/// without proof: sixteen bytes come back. Which ones is left open: they
/// are drawn at random.
#[verifier::external_body]
pub(crate) fn random_bytes() -> (bytes: Vec<u8>)
    ensures
        bytes@.len() == 16,
{
    let mut bytes = [0u8; 16];
    rand::Rng::fill(&mut rand::thread_rng(), &mut bytes);
    bytes.to_vec()
}

} // verus!
