//! The fixed-width buffer that carries a serialized identifier: how bytes
//! are packed into it and how their number is measured back from it.

use vstd::prelude::*;

verus! {

/// Width of the buffer that holds a serialized identifier.
pub const CID_BUFFER_LEN: usize = 48;

/// `n` zero bytes.
pub open spec fn zeros(n: nat) -> Seq<u8> {
    Seq::new(n, |i: int| 0u8)
}

/// `bytes` laid left-aligned into a zeroed buffer of [`CID_BUFFER_LEN`]
/// bytes; what does not fit is dropped.
pub open spec fn packed(bytes: Seq<u8>) -> Seq<u8> {
    Seq::new(
        CID_BUFFER_LEN as nat,
        |i: int|
            if i < bytes.len() {
                bytes[i]
            } else {
                0u8
            },
    )
}

/// Number of bytes of `buf` that remain once its trailing zero bytes are
/// stripped: one plus the index of the last non-zero byte, or zero when
/// every byte is zero.
pub open spec fn meaningful_length(buf: Seq<u8>) -> nat
    decreases buf.len(),
{
    if buf.len() == 0 {
        0
    } else if buf.last() != 0 {
        buf.len()
    } else {
        meaningful_length(buf.drop_last())
    }
}

/// What [`meaningful_length`] comes to: it never exceeds the length of
/// `buf`, every byte from it onwards is zero, and the byte just before it,
/// if there is one, is not.
pub proof fn lemma_meaningful_length_marks_last_nonzero(buf: Seq<u8>)
    ensures
        meaningful_length(buf) <= buf.len(),
        forall|i: int| meaningful_length(buf) <= i < buf.len() ==> buf[i] == 0,
        meaningful_length(buf) > 0 ==> buf[meaningful_length(buf) - 1] != 0,
    decreases buf.len(),
{
    if buf.len() > 0 && buf.last() == 0 {
        lemma_meaningful_length_marks_last_nonzero(buf.drop_last());
        assert forall|i: int| meaningful_length(buf) <= i < buf.len() implies buf[i] == 0 by {
            if i < buf.len() - 1 {
                assert(buf.drop_last()[i] == buf[i]);
            }
        }
    }
}

/// Only one number marks the last non-zero byte of `buf`: if every byte
/// from `n` onwards is zero and the byte before `n`, if there is one, is
/// not, then `n` is the meaningful length.
pub proof fn lemma_meaningful_length_unique(buf: Seq<u8>, n: nat)
    requires
        n <= buf.len(),
        forall|i: int| n <= i < buf.len() ==> buf[i] == 0,
        n > 0 ==> buf[n - 1] != 0,
    ensures
        meaningful_length(buf) == n,
    decreases buf.len(),
{
    if buf.len() > 0 && buf.last() == 0 {
        lemma_meaningful_length_unique(buf.drop_last(), n);
    }
}

/// A byte string that fills the buffer exactly is packed unchanged.
pub proof fn lemma_packed_keeps_full_buffer(bytes: Seq<u8>)
    requires
        bytes.len() == CID_BUFFER_LEN,
    ensures
        packed(bytes) == bytes,
{
}

/// A byte string longer than the buffer is cut to the buffer's width.
pub proof fn lemma_packed_truncates(bytes: Seq<u8>)
    requires
        bytes.len() >= CID_BUFFER_LEN,
    ensures
        packed(bytes) == bytes.subrange(0, CID_BUFFER_LEN as int),
{
}

/// A byte string that fits is followed by zero bytes up to the buffer's
/// width.
pub proof fn lemma_packed_pads_with_zeros(bytes: Seq<u8>)
    requires
        bytes.len() <= CID_BUFFER_LEN,
    ensures
        packed(bytes) == bytes + zeros((CID_BUFFER_LEN - bytes.len()) as nat),
{
}

/// Packing bytes that fit and end in a non-zero byte, then measuring the
/// buffer, gives back their exact number.
pub proof fn lemma_length_round_trip(bytes: Seq<u8>)
    requires
        1 <= bytes.len() <= CID_BUFFER_LEN,
        bytes.last() != 0,
    ensures
        meaningful_length(packed(bytes)) == bytes.len(),
{
    lemma_meaningful_length_unique(packed(bytes), bytes.len());
}

/// Bytes that fit but end in a zero byte measure strictly shorter than they
/// are: the trailing zero cannot be told from padding.
pub proof fn lemma_trailing_zero_shortens(bytes: Seq<u8>)
    requires
        1 <= bytes.len() <= CID_BUFFER_LEN,
        bytes.last() == 0,
    ensures
        meaningful_length(packed(bytes)) < bytes.len(),
{
    lemma_meaningful_length_marks_last_nonzero(packed(bytes));
}

/// The measured length of a packed buffer never exceeds the number of bytes
/// that were packed.
pub proof fn lemma_length_is_lower_bound(bytes: Seq<u8>)
    ensures
        meaningful_length(packed(bytes)) <= bytes.len(),
        meaningful_length(packed(bytes)) <= CID_BUFFER_LEN,
{
    lemma_meaningful_length_marks_last_nonzero(packed(bytes));
}

/// Copies `bytes` into a fresh zeroed buffer, left-aligned, and drops every
/// byte past the end of the buffer.
pub fn pack_cid_bytes(bytes: &[u8]) -> (buffer: [u8; CID_BUFFER_LEN])
    ensures
        buffer@ == packed(bytes@),
{
    let mut buffer = [0u8; CID_BUFFER_LEN];
    let mut i: usize = 0;
    while i < bytes.len() && i < CID_BUFFER_LEN
        invariant
            i <= bytes.len(),
            i <= CID_BUFFER_LEN,
            forall|j: int| 0 <= j < i ==> buffer@[j] == bytes@[j],
            forall|j: int| i <= j < CID_BUFFER_LEN ==> buffer@[j] == 0,
        decreases CID_BUFFER_LEN - i,
    {
        buffer[i] = bytes[i];
        i += 1;
    }
    buffer
}

} // verus!
