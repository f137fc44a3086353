//! Version-1 content identifiers and their canonical byte form.

use multihash_codetable::MultihashDigest;
use vstd::prelude::*;
use vstd::slice::slice_to_vec;

verus! {

/// Multicodec code of raw binary content.
pub const RAW: u64 = 0x55;

/// Multicodec code of the SHA-256 hash function.
pub const SHA2_256: u64 = 0x12;

/// Length in bytes of a SHA-256 digest.
pub const SHA2_256_LEN: usize = 32;

/// Largest digest, in bytes, that a multihash carries.
pub const MAX_DIGEST_LEN: usize = 64;

/// A digest tagged with the code of the hash function that produced it.
/// The digest is never longer than [`MAX_DIGEST_LEN`] bytes.
#[derive(Debug, PartialEq, Eq)]
pub struct Multihash {
    code: u64,
    digest: Vec<u8>,
}

/// Mathematical value of a [`Multihash`].
pub struct MultihashView {
    /// Multicodec code of the hash function.
    pub code: u64,
    /// The digest itself.
    pub digest: Seq<u8>,
}

impl View for Multihash {
    type V = MultihashView;

    closed spec fn view(&self) -> MultihashView {
        MultihashView { code: self.code, digest: self.digest@ }
    }
}

impl Multihash {
    #[verifier::type_invariant]
    spec fn digest_fits(&self) -> bool {
        self.digest@.len() <= MAX_DIGEST_LEN
    }

    /// Tags `digest` with the hash function code `code`. A digest longer
    /// than [`MAX_DIGEST_LEN`] bytes is refused.
    pub fn wrap(code: u64, digest: &[u8]) -> (wrapped: Option<Multihash>)
        ensures
            digest@.len() <= MAX_DIGEST_LEN ==> (wrapped matches Some(hash) && hash@ == (
            MultihashView { code, digest: digest@ })),
            digest@.len() > MAX_DIGEST_LEN ==> wrapped is None,
    {
        if digest.len() > MAX_DIGEST_LEN {
            None
        } else {
            Some(Multihash { code, digest: slice_to_vec(digest) })
        }
    }

    /// Multicodec code of the hash function.
    pub fn code(&self) -> (code: u64)
        ensures
            code == self@.code,
    {
        self.code
    }

    /// Length of the digest in bytes.
    pub fn size(&self) -> (size: u8)
        ensures
            size as nat == self@.digest.len(),
            size <= MAX_DIGEST_LEN,
    {
        proof {
            use_type_invariant(self);
        }
        self.digest.len() as u8
    }

    /// The digest.
    pub fn digest(&self) -> (digest: &[u8])
        ensures
            digest@ == self@.digest,
            digest@.len() <= MAX_DIGEST_LEN,
    {
        proof {
            use_type_invariant(self);
        }
        self.digest.as_slice()
    }
}

impl Clone for Multihash {
    fn clone(&self) -> (copy: Multihash)
        ensures
            copy@ == self@,
    {
        proof {
            use_type_invariant(self);
        }
        Multihash { code: self.code, digest: self.digest.clone() }
    }
}

/// A version-1 content identifier: content type and multihash.
#[derive(Debug, PartialEq, Eq)]
pub struct Cid {
    codec: u64,
    hash: Multihash,
}

/// Mathematical value of a [`Cid`].
pub struct CidView {
    /// Version of the identifier format.
    pub version: u64,
    /// Multicodec code of the content type.
    pub codec: u64,
    /// Multihash of the content.
    pub hash: MultihashView,
}

impl View for Cid {
    type V = CidView;

    closed spec fn view(&self) -> CidView {
        CidView { version: 1, codec: self.codec, hash: self.hash@ }
    }
}

impl Cid {
    /// Makes the version-1 identifier of `hash` for content of type `codec`.
    pub fn new_v1(codec: u64, hash: Multihash) -> (cid: Cid)
        ensures
            cid@ == (CidView { version: 1, codec, hash: hash@ }),
    {
        Cid { codec, hash }
    }

    /// Version of the identifier format: always 1.
    pub fn version(&self) -> (version: u64)
        ensures
            version == 1,
            version == self@.version,
    {
        1
    }

    /// Multicodec code of the content type.
    pub fn codec(&self) -> (codec: u64)
        ensures
            codec == self@.codec,
    {
        self.codec
    }

    /// Multihash of the content.
    pub fn hash(&self) -> (hash: &Multihash)
        ensures
            hash@ == self@.hash,
    {
        &self.hash
    }

    /// Canonical byte form of the identifier.
    pub fn to_bytes(&self) -> (bytes: Vec<u8>)
        ensures
            bytes@ == cid_bytes(self@),
    {
        proof {
            use_type_invariant(&self.hash);
        }
        cid_v1_to_bytes(self.codec, &self.hash)
    }
}

impl Clone for Cid {
    fn clone(&self) -> (copy: Cid)
        ensures
            copy@ == self@,
    {
        Cid { codec: self.codec, hash: self.hash.clone() }
    }
}

/// Unsigned LEB128 form of `n`: seven bits per byte, least significant
/// group first, the high bit set on every byte but the last.
pub open spec fn varint(n: nat) -> Seq<u8>
    decreases n,
{
    if n < 128 {
        seq![n as u8]
    } else {
        seq![(n % 128 + 128) as u8] + varint(n / 128)
    }
}

/// Byte form of a multihash: code, digest length, digest.
pub open spec fn multihash_bytes(hash: MultihashView) -> Seq<u8> {
    varint(hash.code as nat) + varint(hash.digest.len()) + hash.digest
}

/// Byte form of an identifier: version, content type, multihash.
pub open spec fn cid_bytes(cid: CidView) -> Seq<u8> {
    varint(cid.version as nat) + varint(cid.codec as nat) + multihash_bytes(cid.hash)
}

/// The SHA-256 digest of `content`, as the hasher behind
/// `multihash_codetable::Code::Sha2_256` computes it. It has no definition
/// here: all that is known of it is what the hashing wrapper below states.
pub uninterp spec fn sha2_256(content: Seq<u8>) -> Seq<u8>;

/// Hashes `content` with `multihash_codetable::Code::Sha2_256.digest`.
///
/// Trusted: the multihash that comes back carries the SHA-256 code, and its
/// digest is the 32-byte SHA-256 digest of `content`.
#[verifier::external_body]
pub(crate) fn sha2_256_multihash(content: &[u8]) -> (hash: Multihash)
    ensures
        hash@.code == SHA2_256,
        hash@.digest == sha2_256(content@),
        hash@.digest.len() == SHA2_256_LEN,
{
    let hash = multihash_codetable::Code::Sha2_256.digest(content);
    Multihash { code: hash.code(), digest: hash.digest().to_vec() }
}

/// Serializes through `cid::Cid::new_v1(..).to_bytes()`, on the multihash
/// that `multihash::Multihash::wrap` makes of the code and the digest.
///
/// Trusted: the bytes are the varint of version 1, the varint of the codec,
/// the varint of the hash code, the varint of the digest length and the
/// digest, in that order. `wrap` refuses a digest longer than 64 bytes, so
/// such a digest is left out.
#[verifier::external_body]
fn cid_v1_to_bytes(codec: u64, hash: &Multihash) -> (bytes: Vec<u8>)
    requires
        hash@.digest.len() <= MAX_DIGEST_LEN,
    ensures
        bytes@ == cid_bytes(CidView { version: 1, codec, hash: hash@ }),
{
    let wrapped = multihash::Multihash::<64>::wrap(hash.code, &hash.digest).unwrap();
    cid::Cid::new_v1(codec, wrapped).to_bytes()
}

} // verus!
