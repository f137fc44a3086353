//! Content identifiers for file content: hashing content into a version-1
//! identifier, packing the identifier into a fixed-width buffer, splitting
//! the buffer into the three public values that a proof commits to, and the
//! encoded and printed forms of those values.

pub mod abi;
pub mod buffer;
pub mod commitment;
pub mod encoder;
pub mod fixture;
pub mod hexadecimal;
pub mod identifier;
pub mod public_values;

pub use abi::{AbiDecodeError, ABI_ENCODED_LEN};
pub use buffer::{pack_cid_bytes, CID_BUFFER_LEN};
pub use commitment::encode_content;
pub use encoder::calculate_cid;
pub use fixture::{create_proof_fixture, fixture_file_name, CIDProofFixture, ProofSystem};
pub use hexadecimal::hex_with_prefix;
pub use identifier::{Cid, Multihash, RAW, SHA2_256};
pub use public_values::{extract_public_values, PublicValuesStruct};
