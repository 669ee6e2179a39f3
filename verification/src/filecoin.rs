//! Domain identifiers of the sealing pipeline: providers, sectors, proof
//! variants, tickets and commitments.

use crate::varint::{
    decode_u64, decoding, encode_u64, encoding, lemma_decoding_of_encoding, lemma_encoding_len_u64,
};
use vstd::prelude::*;

verus! {

/// Size of a piece before padding, in bytes.
#[derive(Debug, Clone, Copy, PartialEq, Eq, PartialOrd, Ord, Structural)]
pub struct UnpaddedBytesAmount(pub u64);

impl Default for UnpaddedBytesAmount {
    fn default() -> (amount: Self)
        ensures
            amount.0 == 0,
    {
        UnpaddedBytesAmount(0)
    }
}

/// A 32-byte commitment to data.
#[derive(Debug, Clone, PartialEq, Eq, Hash)]
pub struct Commitment(pub [u8; 32]);

/// A 32-byte randomness value drawn from the chain.
#[derive(Debug, Clone, PartialEq, Eq)]
pub struct Ticket(pub [u8; 32]);

/// A piece of a sector: its commitment and its size.
#[derive(Debug, Clone, PartialEq, Eq)]
pub struct PieceInfo {
    pub commitment: Commitment,
    pub size: UnpaddedBytesAmount,
}

/// What a piece is, as mathematical data.
pub struct PieceInfoModel {
    pub commitment: Seq<u8>,
    pub size: u64,
}

impl View for PieceInfo {
    type V = PieceInfoModel;

    open spec fn view(&self) -> PieceInfoModel {
        PieceInfoModel { commitment: self.commitment.0@, size: self.size.0 }
    }
}

/// Identifies a replica of a sector.
#[derive(Debug, Clone, PartialEq, Eq)]
pub struct ReplicaId(pub Vec<u8>);

/// The proof of a sector before it is compressed.
#[derive(Debug, Clone, PartialEq, Eq)]
pub struct VanillaProof(pub Vec<u8>);

/// A prover's identity: 32 bytes that start with the variable-length
/// encoding of the provider's number.
#[derive(Debug, Clone, PartialEq, Eq)]
pub struct ProverId(pub [u8; 32]);

impl Default for ProverId {
    fn default() -> (id: Self)
        ensures
            id.0@ == Seq::new(32, |i: int| 0u8),
    {
        let id = ProverId([0u8; 32]);
        assert(id.0@ =~= Seq::new(32, |i: int| 0u8));
        id
    }
}

/// Identifies a storage provider account.
#[derive(Debug, Clone, Copy, PartialEq, Eq, Hash, Structural)]
pub struct StorageProviderId(pub u64);

/// Identifies a sector within one provider's namespace.
#[derive(Debug, Clone, Copy, PartialEq, Eq, Hash, Structural)]
pub struct SectorId(pub u64);

/// Chain height marker.
#[derive(Debug, Clone, Copy, PartialEq, Eq, Structural)]
pub struct ChainEpoch(pub i64);

/// Proof variant: five sector sizes, each in two proof versions.
#[derive(Debug, Clone, Copy, PartialEq, Eq, Structural)]
pub enum RegisteredSealProof {
    StackedDrg2KiBV1,
    StackedDrg8MiBV1,
    StackedDrg512MiBV1,
    StackedDrg32GiBV1,
    StackedDrg64GiBV1,
    StackedDrg2KiBV1_1,
    StackedDrg8MiBV1_1,
    StackedDrg512MiBV1_1,
    StackedDrg32GiBV1_1,
    StackedDrg64GiBV1_1,
}

pub const SECTOR_SIZE_2_KIB: u64 = 0x800;

pub const SECTOR_SIZE_8_MIB: u64 = 0x80_0000;

pub const SECTOR_SIZE_512_MIB: u64 = 0x2000_0000;

pub const SECTOR_SIZE_32_GIB: u64 = 0x8_0000_0000;

pub const SECTOR_SIZE_64_GIB: u64 = 0x10_0000_0000;

/// The sector size of a proof variant, as a mathematical value.
pub open spec fn spec_sector_size(kind: RegisteredSealProof) -> u64 {
    match kind {
        RegisteredSealProof::StackedDrg2KiBV1 => SECTOR_SIZE_2_KIB,
        RegisteredSealProof::StackedDrg2KiBV1_1 => SECTOR_SIZE_2_KIB,
        RegisteredSealProof::StackedDrg8MiBV1 => SECTOR_SIZE_8_MIB,
        RegisteredSealProof::StackedDrg8MiBV1_1 => SECTOR_SIZE_8_MIB,
        RegisteredSealProof::StackedDrg512MiBV1 => SECTOR_SIZE_512_MIB,
        RegisteredSealProof::StackedDrg512MiBV1_1 => SECTOR_SIZE_512_MIB,
        RegisteredSealProof::StackedDrg32GiBV1 => SECTOR_SIZE_32_GIB,
        RegisteredSealProof::StackedDrg32GiBV1_1 => SECTOR_SIZE_32_GIB,
        RegisteredSealProof::StackedDrg64GiBV1 => SECTOR_SIZE_64_GIB,
        RegisteredSealProof::StackedDrg64GiBV1_1 => SECTOR_SIZE_64_GIB,
    }
}

/// Sector size in bytes of the given proof variant.
pub fn sector_size(kind: &RegisteredSealProof) -> (size: u64)
    ensures
        size == spec_sector_size(*kind),
{
    match kind {
        RegisteredSealProof::StackedDrg2KiBV1 => SECTOR_SIZE_2_KIB,
        RegisteredSealProof::StackedDrg8MiBV1 => SECTOR_SIZE_8_MIB,
        RegisteredSealProof::StackedDrg512MiBV1 => SECTOR_SIZE_512_MIB,
        RegisteredSealProof::StackedDrg32GiBV1 => SECTOR_SIZE_32_GIB,
        RegisteredSealProof::StackedDrg64GiBV1 => SECTOR_SIZE_64_GIB,
        RegisteredSealProof::StackedDrg2KiBV1_1 => SECTOR_SIZE_2_KIB,
        RegisteredSealProof::StackedDrg8MiBV1_1 => SECTOR_SIZE_8_MIB,
        RegisteredSealProof::StackedDrg512MiBV1_1 => SECTOR_SIZE_512_MIB,
        RegisteredSealProof::StackedDrg32GiBV1_1 => SECTOR_SIZE_32_GIB,
        RegisteredSealProof::StackedDrg64GiBV1_1 => SECTOR_SIZE_64_GIB,
    }
}

/// The five sector sizes are the powers of two with exponents 11, 23, 29, 35
/// and 36, every proof variant has one of them, and the two versions of a
/// variant have the same one.
pub proof fn lemma_sector_sizes(kind: RegisteredSealProof)
    ensures
        SECTOR_SIZE_2_KIB == 1u64 << 11,
        SECTOR_SIZE_8_MIB == 1u64 << 23,
        SECTOR_SIZE_512_MIB == 1u64 << 29,
        SECTOR_SIZE_32_GIB == 1u64 << 35,
        SECTOR_SIZE_64_GIB == 1u64 << 36,
        spec_sector_size(kind) == SECTOR_SIZE_2_KIB || spec_sector_size(kind) == SECTOR_SIZE_8_MIB
            || spec_sector_size(kind) == SECTOR_SIZE_512_MIB || spec_sector_size(kind)
            == SECTOR_SIZE_32_GIB || spec_sector_size(kind) == SECTOR_SIZE_64_GIB,
        spec_sector_size(RegisteredSealProof::StackedDrg2KiBV1) == spec_sector_size(
            RegisteredSealProof::StackedDrg2KiBV1_1,
        ),
        spec_sector_size(RegisteredSealProof::StackedDrg8MiBV1) == spec_sector_size(
            RegisteredSealProof::StackedDrg8MiBV1_1,
        ),
        spec_sector_size(RegisteredSealProof::StackedDrg512MiBV1) == spec_sector_size(
            RegisteredSealProof::StackedDrg512MiBV1_1,
        ),
        spec_sector_size(RegisteredSealProof::StackedDrg32GiBV1) == spec_sector_size(
            RegisteredSealProof::StackedDrg32GiBV1_1,
        ),
        spec_sector_size(RegisteredSealProof::StackedDrg64GiBV1) == spec_sector_size(
            RegisteredSealProof::StackedDrg64GiBV1_1,
        ),
{
    assert(0x800u64 == 1u64 << 11) by (bit_vector);
    assert(0x80_0000u64 == 1u64 << 23) by (bit_vector);
    assert(0x2000_0000u64 == 1u64 << 29) by (bit_vector);
    assert(0x8_0000_0000u64 == 1u64 << 35) by (bit_vector);
    assert(0x10_0000_0000u64 == 1u64 << 36) by (bit_vector);
}

/// The 32 bytes of the prover identity of provider `n`: the encoding of `n`,
/// then zeros.
pub open spec fn prover_bytes(n: u64) -> Seq<u8> {
    encoding(n as nat) + Seq::new((32 - encoding(n as nat).len()) as nat, |i: int| 0u8)
}

/// The prover identity of a provider.
pub closed spec fn prover_id_of(provider: StorageProviderId) -> ProverId {
    choose|id: ProverId| id.0@ == prover_bytes(provider.0)
}

/// The provider that a prover identity names, where its first bytes decode.
pub open spec fn provider_of(id: ProverId) -> Option<StorageProviderId> {
    match decoding(id.0@) {
        Some(n) => Some(StorageProviderId(n)),
        None => None,
    }
}

impl From<StorageProviderId> for ProverId {
    fn from(sp_id: StorageProviderId) -> (id: ProverId)
        ensures
            id.0@ == prover_bytes(sp_id.0),
    {
        let encoded = encode_u64(sp_id.0);
        proof {
            lemma_encoding_len_u64(sp_id.0);
        }
        let mut bytes = [0u8; 32];
        let mut i: usize = 0;
        while i < encoded.len()
            invariant
                i <= encoded.len() <= 10,
                forall|k: int| 0 <= k < i ==> bytes@[k] == encoded@[k],
                forall|k: int| i <= k < 32 ==> bytes@[k] == 0u8,
            decreases encoded.len() - i,
        {
            bytes[i] = encoded[i];
            i = i + 1;
        }
        let id = ProverId(bytes);
        proof {
            assert(id.0@ =~= prover_bytes(sp_id.0));
            let chosen = prover_id_of(sp_id);
            assert(chosen.0@ == prover_bytes(sp_id.0));
            assert(chosen.0 =~= id.0);
        }
        id
    }
}

impl vstd::std_specs::convert::FromSpecImpl<StorageProviderId> for ProverId {
    open spec fn obeys_from_spec() -> bool {
        true
    }

    open spec fn from_spec(sp_id: StorageProviderId) -> ProverId {
        prover_id_of(sp_id)
    }
}

impl StorageProviderId {
    /// The provider named by a prover identity whose first bytes decode.
    pub fn from_prover_id(prover_id: &ProverId) -> (provider: StorageProviderId)
        requires
            provider_of(*prover_id) is Some,
        ensures
            Some(provider) == provider_of(*prover_id),
    {
        StorageProviderId(decode_u64(prover_id.0.as_slice()).unwrap())
    }

    /// The provider named by a prover identity, or `None` where its first
    /// bytes are no encoding of a 64-bit number.
    pub fn try_from_prover_id(prover_id: &ProverId) -> (provider: Option<StorageProviderId>)
        ensures
            provider == provider_of(*prover_id),
    {
        match decode_u64(prover_id.0.as_slice()) {
            Some(n) => Some(StorageProviderId(n)),
            None => None,
        }
    }
}

/// An array that agrees with `bytes` on its first `k` places.
proof fn lemma_array_with(bytes: Seq<u8>, k: nat) -> (array: [u8; 32])
    requires
        bytes.len() == 32,
        k <= 32,
    ensures
        forall|i: int| 0 <= i < k ==> array@[i] == bytes[i],
    decreases k,
{
    broadcast use vstd::array::group_array_axioms;

    if k == 0 {
        vstd::array::spec_array_fill_for_copy_type::<u8, 32>(0u8)
    } else {
        let shorter = lemma_array_with(bytes, (k - 1) as nat);
        vstd::array::spec_array_update(shorter, k - 1, bytes[k - 1])
    }
}

/// The bytes of the prover identity of a provider are `prover_bytes`.
pub proof fn lemma_prover_id_bytes(provider: StorageProviderId)
    ensures
        prover_id_of(provider).0@ == prover_bytes(provider.0),
{
    lemma_encoding_len_u64(provider.0);
    let bytes = prover_bytes(provider.0);
    let witness = ProverId(lemma_array_with(bytes, 32));
    assert(witness.0@ =~= bytes);
}

/// The provider of a provider's prover identity is that provider: turning a
/// provider into a prover identity and back loses nothing.
pub proof fn lemma_prover_id_round_trip(provider: StorageProviderId)
    ensures
        provider_of(prover_id_of(provider)) == Some(provider),
{
    lemma_prover_id_bytes(provider);
    lemma_decoding_of_encoding(
        provider.0,
        Seq::new((32 - encoding(provider.0 as nat).len()) as nat, |i: int| 0u8),
    );
}

} // verus!
