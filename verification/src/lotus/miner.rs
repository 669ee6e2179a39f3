//! What the miner process of the node exchanges about sectors: where their
//! data lies, how far they are, and the requests it makes for remote
//! commit work.

use crate::filecoin::{Commitment, RegisteredSealProof, Ticket};
use crate::lotus::chain::ChainEpoch;
use crate::json::{Json, JsonModel};
use vstd::prelude::*;

verus! {

/// `cid::CidGeneric`, of which `cid::Cid` is the one with 64 bytes of
/// digest: a content identifier, carried through as it is.
#[verifier::external_type_specification]
#[verifier::external_body]
pub struct ExCidGeneric<const S: usize>(cid::CidGeneric<S>);

/// `url::Url`: an address on the network, carried through as it is.
#[verifier::external_type_specification]
#[verifier::external_body]
pub struct ExUrl(url::Url);

/// `fvm_shared::piece::PaddedPieceSize`: the size of a piece after padding,
/// carried through as it is.
#[verifier::external_type_specification]
#[verifier::external_body]
pub struct ExPaddedPieceSize(fvm_shared::piece::PaddedPieceSize);

/// Where the data of a sector lies.
#[derive(Debug)]
pub struct SectorLocation {
    pub local: bool,
    pub url: String,
}

/// A sector of a miner.
#[derive(Debug)]
pub struct Sector {
    pub miner: u64,
    pub number: u64,
}

/// How far the miner is with a sector.
#[derive(Debug, Clone, Copy, PartialEq, Eq, Structural)]
pub enum LotusState {
    Packing,
    GetTicket,
    PreCommitting,
    SubmitCommit,
    Proving,
    Available,
}

/// The number under which the node knows a proof variant.
pub open spec fn proof_type_id(kind: RegisteredSealProof) -> u64 {
    match kind {
        RegisteredSealProof::StackedDrg2KiBV1 => 0,
        RegisteredSealProof::StackedDrg8MiBV1 => 1,
        RegisteredSealProof::StackedDrg512MiBV1 => 2,
        RegisteredSealProof::StackedDrg32GiBV1 => 3,
        RegisteredSealProof::StackedDrg64GiBV1 => 4,
        RegisteredSealProof::StackedDrg2KiBV1_1 => 5,
        RegisteredSealProof::StackedDrg8MiBV1_1 => 6,
        RegisteredSealProof::StackedDrg512MiBV1_1 => 7,
        RegisteredSealProof::StackedDrg32GiBV1_1 => 8,
        RegisteredSealProof::StackedDrg64GiBV1_1 => 9,
    }
}

/// The number under which the node knows a proof variant.
pub fn proof_type_serialize(kind: &RegisteredSealProof) -> (id: u64)
    ensures
        id == proof_type_id(*kind),
{
    match kind {
        RegisteredSealProof::StackedDrg2KiBV1 => 0,
        RegisteredSealProof::StackedDrg8MiBV1 => 1,
        RegisteredSealProof::StackedDrg512MiBV1 => 2,
        RegisteredSealProof::StackedDrg32GiBV1 => 3,
        RegisteredSealProof::StackedDrg64GiBV1 => 4,
        RegisteredSealProof::StackedDrg2KiBV1_1 => 5,
        RegisteredSealProof::StackedDrg8MiBV1_1 => 6,
        RegisteredSealProof::StackedDrg512MiBV1_1 => 7,
        RegisteredSealProof::StackedDrg32GiBV1_1 => 8,
        RegisteredSealProof::StackedDrg64GiBV1_1 => 9,
    }
}

/// The proof variant that the node knows under a number; a number above 9
/// is handed back as the error.
pub fn proof_type_deserialize(id: u64) -> (kind: Result<RegisteredSealProof, u64>)
    ensures
        match kind {
            Ok(k) => proof_type_id(k) == id,
            Err(n) => n == id && id > 9,
        },
{
    if id == 0 {
        Ok(RegisteredSealProof::StackedDrg2KiBV1)
    } else if id == 1 {
        Ok(RegisteredSealProof::StackedDrg8MiBV1)
    } else if id == 2 {
        Ok(RegisteredSealProof::StackedDrg512MiBV1)
    } else if id == 3 {
        Ok(RegisteredSealProof::StackedDrg32GiBV1)
    } else if id == 4 {
        Ok(RegisteredSealProof::StackedDrg64GiBV1)
    } else if id == 5 {
        Ok(RegisteredSealProof::StackedDrg2KiBV1_1)
    } else if id == 6 {
        Ok(RegisteredSealProof::StackedDrg8MiBV1_1)
    } else if id == 7 {
        Ok(RegisteredSealProof::StackedDrg512MiBV1_1)
    } else if id == 8 {
        Ok(RegisteredSealProof::StackedDrg32GiBV1_1)
    } else if id == 9 {
        Ok(RegisteredSealProof::StackedDrg64GiBV1_1)
    } else {
        Err(id)
    }
}

/// A proof variant has a number from 0 to 9, and no two have the same.
pub proof fn lemma_proof_type_ids(a: RegisteredSealProof, b: RegisteredSealProof)
    ensures
        proof_type_id(a) <= 9,
        proof_type_id(a) == proof_type_id(b) ==> a == b,
{
}

/// The tree of a content identifier with the given text: an object with
/// the text under the name "/".
pub open spec fn cid_tree(text: Seq<char>) -> JsonModel {
    JsonModel::Object(seq![("/"@, JsonModel::Text(text))])
}

/// The tree of a content identifier, from its text.
pub fn cid_serialize(text: &str) -> (tree: Json)
    ensures
        tree@ == cid_tree(text@),
{
    let mut entries: Vec<(String, Json)> = Vec::new();
    entries.push(("/".to_owned(), Json::Text(text.to_owned())));
    let tree = Json::Object(entries);
    proof {
        crate::json::lemma_entry_models(entries@);
        assert(tree@->Object_0 =~= cid_tree(text@)->Object_0);
    }
    tree
}

/// The text of the content identifier in a tree: the text under the name
/// "/".
pub fn cid_deserialize(tree: &Json) -> (text: Option<&str>)
    ensures
        match text {
            Some(t) => tree@.member("/"@) matches Some(m) && m.as_text() == Some(t@),
            None => !(tree@.member("/"@) matches Some(m) && m.as_text() is Some),
        },
{
    match tree.get("/") {
        Some(m) => m.as_str(),
        None => None,
    }
}

/// A piece of a sector, as the miner knows it.
pub struct Piece {
    pub cid: cid::Cid,
    pub size: fvm_shared::piece::PaddedPieceSize,
}

/// A piece in its place in a sector.
pub struct SectorPiece {
    pub piece: Piece,
}

/// All that the miner is told of a sector that was sealed elsewhere.
pub struct Meta {
    pub state: LotusState,
    pub sector: Sector,
    pub proof_type: RegisteredSealProof,
    pub pieces: Vec<SectorPiece>,
    pub ticket_value: Ticket,
    pub ticket_epoch: ChainEpoch,
    pub pre_commit1_out: Commitment,
    pub comm_d: cid::Cid,
    pub comm_r: cid::Cid,
    pub data_unsealed: SectorLocation,
    pub data_sealed: SectorLocation,
    pub data_cache: SectorLocation,
    pub remote_commit1_endpoint: url::Url,
    pub remote_commit2_endpoint: url::Url,
    pub remote_sealing_done_endpoint: url::Url,
}

/// The request for the first commit stage, as the miner makes it.
pub struct RemoteC1Request {
    pub ticket: Ticket,
    pub seed: Ticket,
    pub unsealed: cid::Cid,
    pub sealed: cid::Cid,
    pub proof: RegisteredSealProof,
}

/// The request for the second commit stage, as the miner makes it.
#[derive(Debug)]
pub struct RemoteC2Request {
    pub sector: Sector,
    pub proof: RegisteredSealProof,
    pub commit1_out: Vec<u8>,
}

/// The miner's word that sealing is over.
pub struct DoneRequest {
    pub commit_message: cid::Cid,
    pub state: String,
    pub successful: bool,
}

} // verus!
