//! The record that is written out for the on-chain verifier's tests.

use crate::abi::{abi_fields, AbiDecodeError, ABI_ENCODED_LEN};
use crate::hexadecimal::{hex_with_prefix, prefixed_hex};
use crate::public_values::PublicValuesStruct;
use vstd::prelude::*;
use vstd::string::*;

verus! {

/// The proof systems a fixture can be made for.
#[derive(Debug, Clone, Copy, PartialEq, Eq)]
pub enum ProofSystem {
    Plonk,
    Groth16,
}

/// Everything the verifier's tests need to check one proof end to end.
#[derive(Debug, PartialEq, Eq)]
pub struct CIDProofFixture {
    /// Leading segment of the identifier buffer, in prefixed hex.
    pub cid_bytes: String,
    /// Trailing segment of the identifier buffer, in prefixed hex.
    pub cid_bytes_remainder: String,
    /// Number of meaningful bytes of the identifier.
    pub cid_length: u8,
    /// The verification key, as its holder prints it.
    pub vkey: String,
    /// The committed public values, in prefixed hex.
    pub public_values: String,
    /// The proof, in prefixed hex.
    pub proof: String,
}

/// Name of the file that holds the fixture of `system`: the system's name in
/// lower case, then `-fixture.json`.
pub fn fixture_file_name(system: ProofSystem) -> (name: String)
    ensures
        name@ == match system {
            ProofSystem::Plonk => "plonk-fixture.json"@,
            ProofSystem::Groth16 => "groth16-fixture.json"@,
        },
{
    match system {
        ProofSystem::Plonk => String::from_str("plonk-fixture.json"),
        ProofSystem::Groth16 => String::from_str("groth16-fixture.json"),
    }
}

/// `fixture` is the fixture of a proof with the committed bytes
/// `public_values`, the verification key `vkey` and the bytes `proof`: the
/// fields that the committed bytes hold, and each byte string in
/// hexadecimal behind `0x`.
pub open spec fn is_fixture_of(
    fixture: CIDProofFixture,
    public_values: Seq<u8>,
    vkey: Seq<char>,
    proof: Seq<u8>,
) -> bool {
    &&& fixture.cid_bytes@ == prefixed_hex(abi_fields(public_values).cid_bytes)
    &&& fixture.cid_bytes_remainder@ == prefixed_hex(abi_fields(public_values).cid_bytes_remainder)
    &&& fixture.cid_length == abi_fields(public_values).cid_length
    &&& fixture.vkey@ == vkey
    &&& fixture.public_values@ == prefixed_hex(public_values)
    &&& fixture.proof@ == prefixed_hex(proof)
}

/// Assembles the fixture of one proof from the bytes it committed, the
/// verification key as text and the proof bytes. The committed bytes are
/// decoded without validation; fewer than three words of them give no
/// fixture.
pub fn create_proof_fixture(public_values: &[u8], vkey: String, proof: &[u8]) -> (made: Result<
    CIDProofFixture,
    AbiDecodeError,
>)
    ensures
        made is Ok <==> public_values@.len() >= ABI_ENCODED_LEN,
        made matches Ok(fixture) ==> is_fixture_of(fixture, public_values@, vkey@, proof@),
        made matches Err(error) ==> error == AbiDecodeError::TooShort,
{
    match PublicValuesStruct::abi_decode(public_values, false) {
        Ok(values) => Ok(
            CIDProofFixture {
                cid_bytes: hex_with_prefix(values.cid_bytes.as_slice()),
                cid_bytes_remainder: hex_with_prefix(values.cid_bytes_remainder.as_slice()),
                cid_length: values.cid_length,
                vkey,
                public_values: hex_with_prefix(public_values),
                proof: hex_with_prefix(proof),
            },
        ),
        Err(error) => Err(error),
    }
}

} // verus!
