//! Chain data as the node reports it: content identifiers, blocks, messages,
//! the head of the chain, actors, miners and sectors.

use vstd::string::StringExecFns;
use vstd::hash_map::StringHashMap;
use vstd::prelude::*;

verus! {

/// A content identifier as the node writes it: a map with the identifier
/// under the name "/".
pub type CID = StringHashMap<String>;

/// An address in its text form.
pub type Address = String;

/// A chain height.
pub type ChainEpoch = i64;

pub type PeerId = String;

pub type RegisteredPoStProof = i64;

pub type SectorSize = u64;

/// An amount of tokens, in the smallest unit, as decimal text.
pub type TokenAmount = String;

/// The number of a deal, as decimal text.
pub type DealId = String;

pub type Randomness = Vec<u8>;

pub type Entropy = Vec<u8>;

/// The content identifier with the given text.
pub fn str2cid(str: String) -> (cid: CID)
    ensures
        cid@ == Map::<Seq<char>, String>::empty().insert("/"@, str),
{
    let mut m: StringHashMap<String> = StringHashMap::new();
    m.insert("/".to_owned(), str);
    m
}

/// The text of a content identifier, if it has one.
pub fn cid2str(cid: CID) -> (text: Option<String>)
    ensures
        match text {
            Some(t) => cid@.contains_key("/"@) && t == cid@["/"@],
            None => !cid@.contains_key("/"@),
        },
{
    match cid.get("/") {
        Some(text) => Some(text.clone()),
        None => None,
    }
}

/// The text of a content identifier, if it has one.
pub fn cidr2str(cid: &CID) -> (text: Option<&String>)
    ensures
        match text {
            Some(t) => cid@.contains_key("/"@) && *t == cid@["/"@],
            None => !cid@.contains_key("/"@),
        },
{
    cid.get("/")
}

#[allow(non_snake_case)]
pub struct ActorState {
    pub Balance: String,
    pub Address: Address,
}

#[allow(non_snake_case)]
#[derive(Debug, Clone)]
pub struct BlockTicket {
    pub VRFProof: String,
}

#[allow(non_snake_case)]
#[derive(Debug, Clone)]
pub struct ElectionProof {
    pub WinCount: i32,
    pub VRFProof: String,
}

#[allow(non_snake_case)]
#[derive(Debug, Clone)]
pub struct BeaconEntry {
    pub Round: i32,
    pub Data: String,
}

#[allow(non_snake_case)]
#[derive(Debug, Clone)]
pub struct WinPoStProof {
    pub PoStProof: i32,
    pub ProofBytes: String,
}

#[allow(non_snake_case)]
#[derive(Debug, Clone)]
pub struct BLSAggregate {
    pub Type: i8,
    pub Data: String,
}

#[allow(non_snake_case)]
#[derive(Debug, Clone)]
pub struct BlockSig {
    pub Type: i8,
    pub Data: String,
}

#[allow(non_snake_case)]
pub struct Block {
    pub Miner: String,
    pub Ticket: BlockTicket,
    pub ElectionProof: ElectionProof,
    pub BeaconEntries: Option<Vec<BeaconEntry>>,
    pub WinPoStProof: Option<Vec<WinPoStProof>>,
    pub Parents: Vec<CID>,
    pub ParentWeight: String,
    pub Height: i64,
    pub ParentStateRoot: CID,
    pub ParentMessageReceipts: CID,
    pub Messages: CID,
    pub BLSAggregate: BLSAggregate,
    pub Timestamp: i64,
    pub BlockSig: BlockSig,
    pub ForkSignaling: i64,
    pub ParentBaseFee: String,
}

#[allow(non_snake_case)]
pub struct Message {
    pub Version: Option<i32>,
    pub To: String,
    pub From: String,
    pub Nonce: Option<i32>,
    pub Value: Option<String>,
    pub GasLimit: Option<i64>,
    pub GasFeeCap: Option<String>,
    pub GasPremium: Option<String>,
    pub Method: i64,
    pub Params: Option<String>,
    pub CID: CID,
}

#[allow(non_snake_case)]
#[derive(Debug, Clone)]
pub struct Signature {
    pub Data: String,
    pub Type: i32,
}

#[allow(non_snake_case)]
pub struct SignedMessage {
    pub Message: Message,
    pub Signature: Signature,
}

#[allow(non_snake_case)]
pub struct BlockMessages {
    pub BlsMessages: Vec<Message>,
    pub Cids: Vec<CID>,
    pub SecpkMessages: Vec<SignedMessage>,
}

#[allow(non_snake_case)]
pub struct ChainHead {
    pub Height: i64,
    pub Blocks: Vec<Block>,
    pub Cids: Vec<CID>,
}

/// The texts of the first `n` identifiers, one after the other.
pub open spec fn texts(cids: Seq<CID>, n: nat) -> Seq<char>
    decreases n,
{
    if n == 0 {
        Seq::empty()
    } else {
        texts(cids, (n - 1) as nat) + cids[n - 1]@["/"@]@
    }
}

/// Every identifier has a text.
pub open spec fn all_named(cids: Seq<CID>) -> bool {
    forall|i: int| 0 <= i < cids.len() ==> (#[trigger] cids[i])@.contains_key("/"@)
}

impl ChainHead {
    /// The key of the tipset: the texts of its identifiers, one after the
    /// other; `None` where one of them has no text.
    pub fn key(&self) -> (key: Option<String>)
        ensures
            match key {
                Some(k) => all_named(self.Cids@) && k@ == texts(self.Cids@, self.Cids@.len()),
                None => !all_named(self.Cids@),
            },
    {
        let mut buffer = String::new();
        let mut i: usize = 0;
        while i < self.Cids.len()
            invariant
                i <= self.Cids@.len(),
                buffer@ == texts(self.Cids@, i as nat),
                forall|k: int| 0 <= k < i ==> (#[trigger] self.Cids@[k])@.contains_key("/"@),
            decreases self.Cids@.len() - i,
        {
            match cidr2str(&self.Cids[i]) {
                Some(text) => {
                    buffer = buffer.concat(text.as_str());
                },
                None => {
                    return None;
                },
            }
            i = i + 1;
        }
        Some(buffer)
    }
}

#[allow(non_snake_case)]
#[derive(Debug)]
pub struct MinerInfo {
    pub Owner: Address,
    pub Worker: Address,
    pub NewWorker: Address,
    pub ControlAddresses: Option<Vec<Address>>,
    pub WorkerChangeEpoch: ChainEpoch,
    pub PeerId: PeerId,
    pub Multiaddrs: Option<Vec<String>>,
    pub WindowPoStProofType: RegisteredPoStProof,
    pub SectorSize: SectorSize,
    pub WindowPoStPartitionSectors: u64,
    pub ConsensusFaultElapsed: ChainEpoch,
}

/// What a draw of randomness is for.
#[derive(Debug, Clone, Copy, PartialEq, Eq, Structural)]
pub enum DomainSeparationTag {
    TicketProduction,
    ElectionProofProduction,
    WinningPoStChallengeSeed,
    WindowedPoStChallengeSeed,
    SealRandomness,
    InteractiveSealChallengeSeed,
    WindowedPoStDeadlineAssignment,
    MarketDealCronSeed,
    PoStChainCommit,
}

impl DomainSeparationTag {
    /// The number of a tag on the chain: the tags are numbered from one, in
    /// the order they are declared.
    pub open spec fn number(self) -> u8 {
        match self {
            DomainSeparationTag::TicketProduction => 1,
            DomainSeparationTag::ElectionProofProduction => 2,
            DomainSeparationTag::WinningPoStChallengeSeed => 3,
            DomainSeparationTag::WindowedPoStChallengeSeed => 4,
            DomainSeparationTag::SealRandomness => 5,
            DomainSeparationTag::InteractiveSealChallengeSeed => 6,
            DomainSeparationTag::WindowedPoStDeadlineAssignment => 7,
            DomainSeparationTag::MarketDealCronSeed => 8,
            DomainSeparationTag::PoStChainCommit => 9,
        }
    }

    /// The number of the tag on the chain.
    pub fn to_u8(&self) -> (n: u8)
        ensures
            n == self.number(),
    {
        match self {
            DomainSeparationTag::TicketProduction => 1,
            DomainSeparationTag::ElectionProofProduction => 2,
            DomainSeparationTag::WinningPoStChallengeSeed => 3,
            DomainSeparationTag::WindowedPoStChallengeSeed => 4,
            DomainSeparationTag::SealRandomness => 5,
            DomainSeparationTag::InteractiveSealChallengeSeed => 6,
            DomainSeparationTag::WindowedPoStDeadlineAssignment => 7,
            DomainSeparationTag::MarketDealCronSeed => 8,
            DomainSeparationTag::PoStChainCommit => 9,
        }
    }
}

#[allow(non_snake_case)]
pub struct SectorPreCommitInfo {
    pub SealProof: i64,
    pub SectorNumber: u64,
    pub SealedCID: CID,
    pub SealRandEpoch: ChainEpoch,
    pub DealIDs: Option<Vec<DealId>>,
    pub Expiration: ChainEpoch,
    pub UnsealedCid: Option<CID>,
}

#[allow(non_snake_case)]
pub struct SectorPreCommitOnChainInfo {
    pub Info: SectorPreCommitInfo,
    pub PreCommitDeposit: TokenAmount,
    pub PreCommitEpoch: ChainEpoch,
}

} // verus!
