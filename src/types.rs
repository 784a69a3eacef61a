use vstd::prelude::*;

verus! {

/// Identifier of a consensus era.
pub type EraId = u64;

/// Milliseconds since the Unix epoch.
pub type Timestamp = u64;

/// Identifier of a validator; validators are told apart and ordered by it.
pub type PublicKey = u64;

/// A 32-byte digest, such as a state root hash or an accumulated seed.
#[derive(Clone, Copy, Debug, PartialEq, Eq)]
pub struct Digest {
    pub bytes: [u8; 32],
}

impl Digest {
    /// The all-zero digest.
    pub fn zero() -> (r: Digest)
        ensures
            r.is_zero(),
    {
        Digest { bytes: [0u8; 32] }
    }

    pub open spec fn is_zero(&self) -> bool {
        forall|i: int| 0 <= i < 32 ==> #[trigger] self.bytes@[i] == 0
    }
}

/// The content hash of a block.
#[derive(Clone, Copy, Debug, PartialEq, Eq)]
pub struct BlockHash {
    pub digest: Digest,
}

impl BlockHash {
    /// The all-zero hash, which stands for "no parent".
    pub fn zero() -> (r: BlockHash)
        ensures
            r.digest.is_zero(),
    {
        BlockHash { digest: Digest::zero() }
    }
}

/// Version of the protocol a block was produced under.
#[derive(Clone, Copy, Debug, PartialEq, Eq)]
pub struct ProtocolVersion {
    pub major: u32,
    pub minor: u32,
    pub patch: u32,
}

/// The header fields of a block that the control core reads.
#[derive(Clone, Copy, Debug, PartialEq, Eq)]
pub struct BlockHeader {
    pub hash: BlockHash,
    pub parent_hash: BlockHash,
    pub state_root_hash: Digest,
    pub accumulated_seed: Digest,
    pub timestamp: Timestamp,
    pub era_id: EraId,
    pub next_block_era_id: EraId,
    pub height: u64,
    pub protocol_version: ProtocolVersion,
}

/// A block as seen by the control core: its hash and its header.
#[derive(Clone, Copy, Debug, PartialEq, Eq)]
pub struct Block {
    pub hash: BlockHash,
    pub header: BlockHeader,
}

/// A gossiped block body together with the verdict of its self-consistency
/// check (the hash matches the header and the header is well formed), which
/// is computed by the cryptographic layer.
#[derive(Clone, Copy, Debug, PartialEq, Eq)]
pub struct BlockAdded {
    pub block: Block,
    pub is_valid: bool,
}

impl BlockAdded {
    pub fn validate(&self) -> (r: bool)
        ensures
            r == self.is_valid,
    {
        self.is_valid
    }
}

/// A validator's attestation that `block_hash` is final in `era_id`,
/// together with the verdict of the signature check on it.
#[derive(Clone, Copy, Debug, PartialEq, Eq)]
pub struct FinalitySignature {
    pub block_hash: BlockHash,
    pub era_id: EraId,
    pub public_key: PublicKey,
    pub signature: [u8; 64],
    pub verified: bool,
}

impl FinalitySignature {
    pub fn is_verified(&self) -> (r: bool)
        ensures
            r == self.verified,
    {
        self.verified
    }
}

} // verus!
