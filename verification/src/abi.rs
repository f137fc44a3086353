//! The public values as the three 32-byte words that Solidity decodes.

use crate::buffer::zeros;
use crate::public_values::{PublicValuesStruct, PublicValuesView, HEAD_LEN, TAIL_LEN};
use alloy_sol_types::sol_data::{FixedBytes, Uint};
use alloy_sol_types::SolType;
use vstd::prelude::*;

verus! {

/// Length of the encoded public values: three words of 32 bytes.
pub const ABI_ENCODED_LEN: usize = 96;

/// Why bytes were not decoded into public values.
#[derive(Debug, Clone, Copy, PartialEq, Eq)]
pub enum AbiDecodeError {
    /// Fewer than [`ABI_ENCODED_LEN`] bytes.
    TooShort,
    /// Validation was asked for and bytes follow the three words.
    TrailingBytes,
    /// Validation was asked for and a padding byte is not zero.
    NonZeroPadding,
}

/// The error of `alloy_sol_types`, carried through unread.
#[verifier::external_type_specification]
#[verifier::external_body]
pub struct ExSolAbiError(alloy_sol_types::Error);

/// The encoding of `values`: the leading segment as one word; the trailing
/// segment, padded on the right with zeros to a word; the length as the
/// last byte of a word of zeros.
pub open spec fn abi_encoding(values: PublicValuesView) -> Seq<u8> {
    values.cid_bytes + (values.cid_bytes_remainder + zeros(16)) + (zeros(31)
        + seq![values.cid_length])
}

/// The fields that three words of `data` hold where an encoding has them,
/// whatever stands in the padding.
pub open spec fn abi_fields(data: Seq<u8>) -> PublicValuesView
    recommends
        data.len() >= ABI_ENCODED_LEN,
{
    PublicValuesView {
        cid_bytes: data.subrange(0, 32),
        cid_bytes_remainder: data.subrange(32, 48),
        cid_length: data[95],
    }
}

/// Whether `data` decodes. Without validation all it takes is three words;
/// with validation `data` must be exactly the encoding of its fields.
pub open spec fn abi_decodes(data: Seq<u8>, validate: bool) -> bool {
    if validate {
        data.len() == ABI_ENCODED_LEN && data == abi_encoding(abi_fields(data))
    } else {
        data.len() >= ABI_ENCODED_LEN
    }
}

/// The reason that `data` does not decode, where it does not.
pub open spec fn abi_failure(data: Seq<u8>) -> AbiDecodeError {
    if data.len() < ABI_ENCODED_LEN {
        AbiDecodeError::TooShort
    } else if data.len() > ABI_ENCODED_LEN {
        AbiDecodeError::TrailingBytes
    } else {
        AbiDecodeError::NonZeroPadding
    }
}

/// Encodes with `abi_encode` of `alloy_sol_types::SolType`, on the tuple
/// type `(bytes32, bytes16, uint8)`.
///
/// Trusted: the result is the three words of [`abi_encoding`].
#[verifier::external_body]
fn sol_abi_encode(values: &PublicValuesStruct) -> (data: Vec<u8>)
    ensures
        data@ == abi_encoding(values@),
{
    <(FixedBytes<32>, FixedBytes<16>, Uint<8>) as SolType>::abi_encode(
        &(values.cid_bytes, values.cid_bytes_remainder, values.cid_length),
    )
}

/// Decodes with `abi_decode` of `alloy_sol_types::SolType`, on the tuple
/// type `(bytes32, bytes16, uint8)`.
///
/// Trusted: the call succeeds exactly on the inputs of [`abi_decodes`], and
/// then gives the fields of [`abi_fields`].
#[verifier::external_body]
fn sol_abi_decode(data: &[u8], validate: bool) -> (decoded: Result<
    PublicValuesStruct,
    alloy_sol_types::Error,
>)
    ensures
        decoded is Ok <==> abi_decodes(data@, validate),
        decoded matches Ok(values) ==> values@ == abi_fields(data@),
{
    let decoded = <(FixedBytes<32>, FixedBytes<16>, Uint<8>) as SolType>::abi_decode(
        data,
        validate,
    )?;
    Ok(
        PublicValuesStruct {
            cid_bytes: decoded.0.0,
            cid_bytes_remainder: decoded.1.0,
            cid_length: decoded.2,
        },
    )
}

/// Decoding an encoding gives back the values that were encoded, with and
/// without validation.
pub proof fn lemma_abi_round_trip(values: PublicValuesView, validate: bool)
    requires
        values.cid_bytes.len() == HEAD_LEN,
        values.cid_bytes_remainder.len() == TAIL_LEN,
    ensures
        abi_encoding(values).len() == ABI_ENCODED_LEN,
        abi_decodes(abi_encoding(values), validate),
        abi_fields(abi_encoding(values)) == values,
{
    let data = abi_encoding(values);
    assert(data.subrange(0, 32) == values.cid_bytes);
    assert(data.subrange(32, 48) == values.cid_bytes_remainder);
}

impl PublicValuesStruct {
    /// The values as three 32-byte words.
    pub fn abi_encode(&self) -> (data: Vec<u8>)
        ensures
            data@ == abi_encoding(self@),
            data@.len() == ABI_ENCODED_LEN,
    {
        sol_abi_encode(self)
    }

    /// Reads the values back from their three words. Bytes after the three
    /// words and non-zero padding are passed over unless `validate` is set;
    /// with it, bytes after the three words are reported before padding.
    pub fn abi_decode(data: &[u8], validate: bool) -> (decoded: Result<
        PublicValuesStruct,
        AbiDecodeError,
    >)
        ensures
            decoded is Ok <==> abi_decodes(data@, validate),
            decoded matches Ok(values) ==> values@ == abi_fields(data@),
            decoded matches Err(error) ==> error == abi_failure(data@),
    {
        match sol_abi_decode(data, validate) {
            Ok(values) => Ok(values),
            Err(_) => {
                if data.len() < ABI_ENCODED_LEN {
                    Err(AbiDecodeError::TooShort)
                } else if data.len() > ABI_ENCODED_LEN {
                    Err(AbiDecodeError::TrailingBytes)
                } else {
                    Err(AbiDecodeError::NonZeroPadding)
                }
            },
        }
    }
}

} // verus!
