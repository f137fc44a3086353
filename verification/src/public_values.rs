//! Splitting the fixed-width identifier buffer into its public fields.

use crate::buffer::{meaningful_length, CID_BUFFER_LEN};
use crate::hexadecimal::{hex_encode, lemma_hex_chars_of_concat, prefixed_hex};
use vstd::prelude::*;
use vstd::string::*;

verus! {

/// Width of the leading segment of the buffer.
pub const HEAD_LEN: usize = 32;

/// Width of the trailing segment of the buffer.
pub const TAIL_LEN: usize = 16;

/// The three public fields committed for one identifier.
#[derive(Debug, Clone, Copy, PartialEq, Eq)]
pub struct PublicValuesStruct {
    /// First 32 bytes of the buffer.
    pub cid_bytes: [u8; HEAD_LEN],
    /// Remaining 16 bytes of the buffer.
    pub cid_bytes_remainder: [u8; TAIL_LEN],
    /// Number of bytes of the buffer up to its last non-zero byte.
    pub cid_length: u8,
}

/// Mathematical value of a [`PublicValuesStruct`].
pub struct PublicValuesView {
    /// The leading segment.
    pub cid_bytes: Seq<u8>,
    /// The trailing segment.
    pub cid_bytes_remainder: Seq<u8>,
    /// The recorded length.
    pub cid_length: u8,
}

impl View for PublicValuesStruct {
    type V = PublicValuesView;

    open spec fn view(&self) -> PublicValuesView {
        PublicValuesView {
            cid_bytes: self.cid_bytes@,
            cid_bytes_remainder: self.cid_bytes_remainder@,
            cid_length: self.cid_length,
        }
    }
}

/// The public values of a buffer: its first 32 bytes, its last 16 bytes
/// and its meaningful length.
pub open spec fn public_values_of(buffer: Seq<u8>) -> PublicValuesView
    recommends
        buffer.len() == CID_BUFFER_LEN,
{
    PublicValuesView {
        cid_bytes: buffer.subrange(0, HEAD_LEN as int),
        cid_bytes_remainder: buffer.subrange(HEAD_LEN as int, CID_BUFFER_LEN as int),
        cid_length: meaningful_length(buffer) as u8,
    }
}

impl PublicValuesStruct {
    /// The 48 bytes of both segments, leading segment first, in hexadecimal
    /// behind the prefix `0x`.
    pub fn cid_hex(&self) -> (text: String)
        ensures
            text@ == prefixed_hex(self.cid_bytes@ + self.cid_bytes_remainder@),
    {
        let head = hex_encode(self.cid_bytes.as_slice());
        let tail = hex_encode(self.cid_bytes_remainder.as_slice());
        proof {
            reveal_strlit("0x");
            lemma_hex_chars_of_concat(self.cid_bytes@, self.cid_bytes_remainder@);
        }
        String::from_str("0x").concat(head.as_str()).concat(tail.as_str())
    }
}

/// Splits the buffer into its leading and trailing segments and recovers
/// the length of the identifier: a forward scan over the whole buffer that
/// records one plus the index of each non-zero byte it meets, so that the
/// last one wins. Zero bytes inside the identifier do not end the scan.
pub fn extract_public_values(cid_bytes: [u8; CID_BUFFER_LEN]) -> (values: PublicValuesStruct)
    ensures
        values@ == public_values_of(cid_bytes@),
        values.cid_bytes@ == cid_bytes@.subrange(0, HEAD_LEN as int),
        values.cid_bytes_remainder@ == cid_bytes@.subrange(HEAD_LEN as int, CID_BUFFER_LEN as int),
        values.cid_bytes@ + values.cid_bytes_remainder@ == cid_bytes@,
        values.cid_length as nat == meaningful_length(cid_bytes@),
        values.cid_length <= CID_BUFFER_LEN,
{
    let mut first_32 = [0u8; HEAD_LEN];
    let mut remainder = [0u8; TAIL_LEN];

    for i in 0..HEAD_LEN
        invariant
            forall|j: int| 0 <= j < i ==> first_32@[j] == cid_bytes@[j],
    {
        first_32[i] = cid_bytes[i];
    }

    for i in 0..TAIL_LEN
        invariant
            forall|j: int| 0 <= j < i ==> remainder@[j] == cid_bytes@[j + HEAD_LEN],
    {
        remainder[i] = cid_bytes[i + HEAD_LEN];
    }

    let mut length: u8 = 0;
    for i in 0..CID_BUFFER_LEN
        invariant
            length as nat == meaningful_length(cid_bytes@.subrange(0, i as int)),
            length <= i,
    {
        proof {
            let scanned = cid_bytes@.subrange(0, i + 1);
            assert(scanned.drop_last() == cid_bytes@.subrange(0, i as int));
        }
        if cid_bytes[i] != 0 {
            length = (i + 1) as u8;
        }
    }

    assert(cid_bytes@.subrange(0, CID_BUFFER_LEN as int) == cid_bytes@);
    assert(first_32@ == cid_bytes@.subrange(0, HEAD_LEN as int));
    assert(remainder@ == cid_bytes@.subrange(HEAD_LEN as int, CID_BUFFER_LEN as int));
    PublicValuesStruct { cid_bytes: first_32, cid_bytes_remainder: remainder, cid_length: length }
}

} // verus!
