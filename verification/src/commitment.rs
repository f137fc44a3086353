//! From content to the bytes that a proof of its identifier commits to.

use crate::abi::{abi_decodes, abi_encoding, abi_fields, lemma_abi_round_trip, ABI_ENCODED_LEN};
use crate::buffer::{lemma_meaningful_length_marks_last_nonzero, meaningful_length, packed};
use crate::encoder::{calculate_cid, content_cid};
use crate::identifier::{cid_bytes, Cid};
use crate::public_values::{extract_public_values, public_values_of, PublicValuesView};
use vstd::prelude::*;

verus! {

/// The buffer of the identifier of `content`.
pub open spec fn content_buffer(content: Seq<u8>) -> Seq<u8> {
    packed(cid_bytes(content_cid(content)))
}

/// The public values of `content`: those of its identifier's buffer.
pub open spec fn content_public_values(content: Seq<u8>) -> PublicValuesView {
    public_values_of(content_buffer(content))
}

/// What a proof about `content` commits to: its public values, encoded.
pub open spec fn commitment(content: Seq<u8>) -> Seq<u8> {
    abi_encoding(content_public_values(content))
}

/// The commitment is always three words long and decodes, with and without
/// validation, to the public values of the content. Its first two words
/// begin with the 48 bytes of the buffer.
pub proof fn lemma_commitment_decodes(content: Seq<u8>, validate: bool)
    ensures
        commitment(content).len() == ABI_ENCODED_LEN,
        abi_decodes(commitment(content), validate),
        abi_fields(commitment(content)) == content_public_values(content),
        commitment(content).subrange(0, 48) == content_buffer(content),
        commitment(content)[95] as nat == meaningful_length(content_buffer(content)),
{
    let buffer = content_buffer(content);
    lemma_meaningful_length_marks_last_nonzero(buffer);
    lemma_abi_round_trip(content_public_values(content), validate);
}

/// Computes the identifier of `content` and the bytes to commit for it:
/// the identifier is packed into its buffer, the buffer is split into the
/// public values, and the public values are encoded.
pub fn encode_content(content: &[u8]) -> (encoded: (Cid, Vec<u8>))
    ensures
        encoded.0@ == content_cid(content@),
        encoded.1@ == commitment(content@),
        encoded.1@.len() == ABI_ENCODED_LEN,
        4 <= encoded.1@[95] <= 36,
{
    let (cid, buffer) = calculate_cid(content);
    let values = extract_public_values(buffer);
    let committed = values.abi_encode();
    proof {
        lemma_commitment_decodes(content@, true);
    }
    (cid, committed)
}

} // verus!
