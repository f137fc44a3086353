//! Hashing content into an identifier and packing it into the buffer.

use crate::buffer::{
    lemma_meaningful_length_marks_last_nonzero, lemma_meaningful_length_unique, meaningful_length,
    pack_cid_bytes, packed, zeros, CID_BUFFER_LEN,
};
use crate::identifier::{
    cid_bytes, sha2_256, sha2_256_multihash, Cid, CidView, MultihashView, RAW, SHA2_256,
    SHA2_256_LEN,
};
use vstd::prelude::*;

verus! {

/// The version-1 identifier of raw content whose SHA-256 digest is `digest`.
pub open spec fn raw_sha2_256_cid(digest: Seq<u8>) -> CidView {
    CidView { version: 1, codec: RAW, hash: MultihashView { code: SHA2_256, digest } }
}

/// The identifier of `content`: version 1, raw content, SHA-256.
pub open spec fn content_cid(content: Seq<u8>) -> CidView {
    raw_sha2_256_cid(sha2_256(content))
}

/// `cid` is the identifier of `content` and `buffer` holds its packed bytes.
pub open spec fn is_encoding_of(content: Seq<u8>, cid: CidView, buffer: Seq<u8>) -> bool {
    cid == content_cid(content) && buffer == packed(cid_bytes(cid))
}

/// The four header bytes of a raw SHA-256 identifier: version 1, the raw
/// codec, the SHA-256 code and the digest length.
pub open spec fn raw_sha2_256_header() -> Seq<u8> {
    seq![1u8, RAW as u8, SHA2_256 as u8, SHA2_256_LEN as u8]
}

/// Encoding is a function of the content: two encodings of the same content
/// have the same identifier and the same buffer.
pub proof fn lemma_encoding_is_deterministic(
    content: Seq<u8>,
    first_cid: CidView,
    first_buffer: Seq<u8>,
    second_cid: CidView,
    second_buffer: Seq<u8>,
)
    requires
        is_encoding_of(content, first_cid, first_buffer),
        is_encoding_of(content, second_cid, second_buffer),
    ensures
        first_cid == second_cid,
        first_buffer == second_buffer,
{
}

/// A raw SHA-256 identifier serializes to its four header bytes followed by
/// the digest: 36 bytes, which the buffer holds without truncation, padded
/// with twelve zero bytes. The length measured from the buffer lies between
/// the header's and the full 36, which it reaches exactly when the digest
/// ends in a non-zero byte.
pub proof fn lemma_raw_sha2_256_layout(digest: Seq<u8>)
    requires
        digest.len() == SHA2_256_LEN,
    ensures
        cid_bytes(raw_sha2_256_cid(digest)) == raw_sha2_256_header() + digest,
        cid_bytes(raw_sha2_256_cid(digest)).len() == 36,
        packed(cid_bytes(raw_sha2_256_cid(digest))) == raw_sha2_256_header() + digest + zeros(12),
        4 <= meaningful_length(packed(cid_bytes(raw_sha2_256_cid(digest)))) <= 36,
        digest.last() != 0 ==> meaningful_length(packed(cid_bytes(raw_sha2_256_cid(digest))))
            == 36,
        digest.last() == 0 ==> meaningful_length(packed(cid_bytes(raw_sha2_256_cid(digest))))
            < 36,
{
    let bytes = cid_bytes(raw_sha2_256_cid(digest));
    let buffer = packed(bytes);
    lemma_meaningful_length_marks_last_nonzero(buffer);
    assert(buffer[3] == 0x20u8);
    if digest.last() != 0 {
        lemma_meaningful_length_unique(buffer, 36);
    }
}

/// Computes the version-1 identifier of `content` (raw content, SHA-256)
/// and its canonical bytes packed into the fixed-width buffer.
///
/// The serialized identifier is always 36 bytes long, so nothing is ever
/// truncated and the last twelve bytes of the buffer are zero.
pub fn calculate_cid(content: &[u8]) -> (encoded: (Cid, [u8; CID_BUFFER_LEN]))
    ensures
        is_encoding_of(content@, encoded.0@, encoded.1@),
        encoded.0@.hash.digest.len() == SHA2_256_LEN,
        cid_bytes(encoded.0@) == raw_sha2_256_header() + sha2_256(content@),
        encoded.1@ == raw_sha2_256_header() + sha2_256(content@) + zeros(12),
        4 <= meaningful_length(encoded.1@) <= 36,
{
    let hash = sha2_256_multihash(content);
    let cid = Cid::new_v1(RAW, hash);
    let raw = cid.to_bytes();
    let buffer = pack_cid_bytes(raw.as_slice());
    proof {
        lemma_raw_sha2_256_layout(sha2_256(content@));
    }
    (cid, buffer)
}

} // verus!
