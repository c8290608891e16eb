//! Content identifiers: a version, the codec of what is named, and the
//! multihash (hash function code and digest) of its bytes.

use vstd::prelude::*;
use crate::order::{compare, Order};

verus! {

/// Multicodec code of the canonical binary tree encoding (DAG-CBOR).
pub const DAG_CBOR: u64 = 0x71;

/// Multicodec code of DAG-PB, the only codec of a version 0 identifier.
pub const DAG_PB: u64 = 0x70;

/// Multicodec code of raw bytes.
pub const RAW: u64 = 0x55;

/// Multihash code of SHA2-256, the only hash of a version 0 identifier.
pub const SHA2_256: u64 = 0x12;

/// Multihash code of SHA3-256, by which identifiers are derived.
pub const SHA3_256: u64 = 0x16;

/// The longest digest an identifier holds, in bytes.
pub const MAX_DIGEST_LEN: usize = 64;

/// The version of an identifier.
#[derive(Clone, Copy, Debug, PartialEq, Eq, Hash, Structural)]
pub enum CidVersion {
    V0,
    V1,
}

/// A content identifier.
#[derive(Debug, PartialEq, Eq, Hash)]
pub struct Cid {
    pub(crate) version: CidVersion,
    pub(crate) codec: u64,
    pub(crate) hash_code: u64,
    pub(crate) digest: Vec<u8>,
}

/// What an identifier is, as plain values.
pub struct CidView {
    pub version: CidVersion,
    pub codec: u64,
    pub hash_code: u64,
    pub digest: Seq<u8>,
}

/// The parts can stand together in one identifier: the digest is at most
/// [`MAX_DIGEST_LEN`] bytes, and a version 0 identifier names DAG-PB data by
/// its SHA2-256 hash.
pub open spec fn valid_parts(version: CidVersion, codec: u64, hash_code: u64, digest: Seq<u8>) -> bool {
    &&& digest.len() <= MAX_DIGEST_LEN
    &&& (version == CidVersion::V0 ==> codec == DAG_PB && hash_code == SHA2_256)
}

/// The SHA3-256 digest of `input`.
pub uninterp spec fn sha3_256_digest(input: Seq<u8>) -> Seq<u8>;

/// The binary form of the identifier `cid`.
pub uninterp spec fn cid_bytes(cid: CidView) -> Seq<u8>;

/// The textual (multibase) form of the identifier `cid`.
pub uninterp spec fn cid_text(cid: CidView) -> Seq<char>;

/// Calls `Code::Sha3_256.digest` of the multihash crate and hands back the
/// digest bytes of the multihash it returns. The contract names that digest
/// and claims its length, 32 bytes, which is the size the crate's code table
/// gives for SHA3-256.
#[verifier::external_body]
fn sha3_256(input: &[u8]) -> (digest: Vec<u8>)
    ensures
        digest@ == sha3_256_digest(input@),
        digest@.len() == 32,
{
    let hash = libipld::multihash::MultihashDigest::digest(&libipld::multihash::Code::Sha3_256, input);
    hash.digest().to_vec()
}

/// Calls `Cid::to_bytes` of the cid crate on the identifier built from the
/// same parts, which that crate takes because they are valid together. The
/// contract names the bytes that come back.
#[verifier::external_body]
fn outside_to_bytes(cid: &Cid) -> (bytes: Vec<u8>)
    ensures
        bytes@ == cid_bytes(cid@),
{
    let version = match cid.version {
        CidVersion::V0 => libipld::cid::Version::V0,
        CidVersion::V1 => libipld::cid::Version::V1,
    };
    let hash = libipld::multihash::Multihash::wrap(cid.hash_code, &cid.digest).unwrap();
    libipld::Cid::new(version, cid.codec, hash).unwrap().to_bytes()
}

/// Calls the `Display` impl of the cid crate's `Cid` on the identifier built
/// from the same parts, which that crate takes because they are valid
/// together. The contract names the text that comes back.
#[verifier::external_body]
fn outside_to_string(cid: &Cid) -> (text: String)
    ensures
        text@ == cid_text(cid@),
{
    let version = match cid.version {
        CidVersion::V0 => libipld::cid::Version::V0,
        CidVersion::V1 => libipld::cid::Version::V1,
    };
    let hash = libipld::multihash::Multihash::wrap(cid.hash_code, &cid.digest).unwrap();
    libipld::Cid::new(version, cid.codec, hash).unwrap().to_string()
}

/// Copies a byte vector.
pub fn copy_bytes(bytes: &Vec<u8>) -> (copy: Vec<u8>)
    ensures
        copy@ == bytes@,
{
    let mut copy: Vec<u8> = Vec::new();
    let mut i: usize = 0;
    while i < bytes.len()
        invariant
            i <= bytes.len(),
            copy@ == bytes@.subrange(0, i as int),
        decreases bytes.len() - i,
    {
        copy.push(bytes[i]);
        i += 1;
        assert(copy@ =~= bytes@.subrange(0, i as int));
    }
    assert(bytes@.subrange(0, bytes.len() as int) =~= bytes@);
    copy
}

impl Cid {
    /// The parts of the identifier are valid together.
    #[verifier::type_invariant]
    spec fn well_formed(&self) -> bool {
        valid_parts(self.version, self.codec, self.hash_code, self.digest@)
    }

    /// The parts of the identifier.
    pub closed spec fn view(&self) -> CidView {
        CidView {
            version: self.version,
            codec: self.codec,
            hash_code: self.hash_code,
            digest: self.digest@,
        }
    }

    /// A version 1 identifier of `codec` data with the given multihash, or
    /// `None` where the digest is longer than [`MAX_DIGEST_LEN`].
    pub fn new_v1(codec: u64, hash_code: u64, digest: Vec<u8>) -> (cid: Option<Cid>)
        ensures
            cid is Some <==> digest@.len() <= MAX_DIGEST_LEN,
            cid matches Some(c) ==> c@ == (CidView {
                version: CidVersion::V1,
                codec,
                hash_code,
                digest: digest@,
            }),
    {
        if digest.len() <= MAX_DIGEST_LEN {
            Some(Cid { version: CidVersion::V1, codec, hash_code, digest })
        } else {
            None
        }
    }

    /// A version 0 identifier with the given SHA2-256 digest, or `None` where
    /// the digest is longer than [`MAX_DIGEST_LEN`].
    pub fn new_v0(digest: Vec<u8>) -> (cid: Option<Cid>)
        ensures
            cid is Some <==> digest@.len() <= MAX_DIGEST_LEN,
            cid matches Some(c) ==> c@ == (CidView {
                version: CidVersion::V0,
                codec: DAG_PB,
                hash_code: SHA2_256,
                digest: digest@,
            }),
    {
        if digest.len() <= MAX_DIGEST_LEN {
            Some(Cid { version: CidVersion::V0, codec: DAG_PB, hash_code: SHA2_256, digest })
        } else {
            None
        }
    }

    /// The identifier of canonically encoded bytes: version 1, tagged as
    /// DAG-CBOR, over the SHA3-256 digest of the bytes, which is of 256 bits.
    pub fn derive(encoded: &[u8]) -> (cid: Cid)
        ensures
            cid@ == derived(encoded@),
            cid@.digest.len() == 32,
            derived_format(cid@),
    {
        let digest = sha3_256(encoded);
        Cid { version: CidVersion::V1, codec: DAG_CBOR, hash_code: SHA3_256, digest }
    }

    /// The version.
    pub fn version(&self) -> (v: CidVersion)
        ensures
            v == self@.version,
    {
        self.version
    }

    /// The codec of what is named.
    pub fn codec(&self) -> (c: u64)
        ensures
            c == self@.codec,
    {
        self.codec
    }

    /// The code of the hash function.
    pub fn hash_code(&self) -> (c: u64)
        ensures
            c == self@.hash_code,
    {
        self.hash_code
    }

    /// The digest. The parts of an identifier that the program holds are
    /// always valid together.
    pub fn digest(&self) -> (d: &Vec<u8>)
        ensures
            d@ == self@.digest,
            valid_parts(self@.version, self@.codec, self@.hash_code, self@.digest),
    {
        proof {
            use_type_invariant(self);
        }
        &self.digest
    }

    /// Whether two identifiers are the same.
    pub fn same(&self, other: &Cid) -> (same: bool)
        ensures
            same == (self@ == other@),
    {
        let digests = compare(self.digest.as_slice(), other.digest.as_slice());
        self.version == other.version && self.codec == other.codec && self.hash_code
            == other.hash_code && digests == Order::Equal
    }

    /// The binary form of the identifier.
    pub fn to_bytes(&self) -> (bytes: Vec<u8>)
        ensures
            bytes@ == cid_bytes(self@),
    {
        outside_to_bytes(self)
    }

    /// The textual form of the identifier.
    pub fn to_string(&self) -> (text: String)
        ensures
            text@ == cid_text(self@),
    {
        outside_to_string(self)
    }
}

/// The format that every derived identifier has: version 1, tagged as
/// DAG-CBOR, with a SHA3-256 digest of 256 bits.
pub open spec fn derived_format(cid: CidView) -> bool {
    &&& cid.version == CidVersion::V1
    &&& cid.codec == DAG_CBOR
    &&& cid.hash_code == SHA3_256
    &&& cid.digest.len() == 32
}

/// The identifier derived from canonically encoded bytes.
pub open spec fn derived(encoded: Seq<u8>) -> CidView {
    CidView {
        version: CidVersion::V1,
        codec: DAG_CBOR,
        hash_code: SHA3_256,
        digest: sha3_256_digest(encoded),
    }
}

impl Clone for Cid {
    fn clone(&self) -> (copy: Self)
        ensures
            copy@ == self@,
    {
        proof {
            use_type_invariant(self);
        }
        Cid {
            version: self.version,
            codec: self.codec,
            hash_code: self.hash_code,
            digest: copy_bytes(&self.digest),
        }
    }
}

} // verus!
