//! The JSON shapes of the protocol: how identifiers, job inputs, envelopes
//! and request bodies are written as trees, and how trees are read back.
//!
//! Bytes travel as base64 text, a proof variant and a job kind by name, an
//! identifier as a number. A job envelope is an object with the kind under
//! `job_type` and the input under `input`; an output envelope has the
//! output under `output`. Reading ignores members it does not know.

use crate::base64::{decode, decoded, encode, encoded};
use crate::envelope::{
    job_models, FailJob, FailJobModel, GetSealingJobsResponse, JobHttp, JobHttpModel,
    JobOutputHttp, JobOutputModel, JobState, SubmitModel, SubmitSealingJobOutput,
};
use crate::filecoin::{
    ChainEpoch, Commitment, PieceInfo, PieceInfoModel, RegisteredSealProof, SectorId,
    StorageProviderId, Ticket, UnpaddedBytesAmount,
};
use crate::job::JobType;
use crate::json::{
    distinct_names, entry_models, item_models, lemma_item_models, lookup, Json, JsonModel,
};
use crate::sealing::{
    piece_models, C1Input, C1InputModel, C1Output, C2Input, C2InputModel, PC1Input, PC1InputModel,
    PC1Output, PC2Input, PC2InputModel, PC2Output, C1, C2, PC, PC1, PC2,
};
use crate::text::same;
use vstd::prelude::*;

verus! {

/// The name of a proof variant.
pub open spec fn proof_name(kind: RegisteredSealProof) -> Seq<char> {
    match kind {
        RegisteredSealProof::StackedDrg2KiBV1 => "StackedDrg2KiBV1"@,
        RegisteredSealProof::StackedDrg8MiBV1 => "StackedDrg8MiBV1"@,
        RegisteredSealProof::StackedDrg512MiBV1 => "StackedDrg512MiBV1"@,
        RegisteredSealProof::StackedDrg32GiBV1 => "StackedDrg32GiBV1"@,
        RegisteredSealProof::StackedDrg64GiBV1 => "StackedDrg64GiBV1"@,
        RegisteredSealProof::StackedDrg2KiBV1_1 => "StackedDrg2KiBV1_1"@,
        RegisteredSealProof::StackedDrg8MiBV1_1 => "StackedDrg8MiBV1_1"@,
        RegisteredSealProof::StackedDrg512MiBV1_1 => "StackedDrg512MiBV1_1"@,
        RegisteredSealProof::StackedDrg32GiBV1_1 => "StackedDrg32GiBV1_1"@,
        RegisteredSealProof::StackedDrg64GiBV1_1 => "StackedDrg64GiBV1_1"@,
    }
}

/// The proof variant with the given name, if there is one.
pub open spec fn proof_named(name: Seq<char>) -> Option<RegisteredSealProof> {
    if name == "StackedDrg2KiBV1"@ {
        Some(RegisteredSealProof::StackedDrg2KiBV1)
    } else if name == "StackedDrg8MiBV1"@ {
        Some(RegisteredSealProof::StackedDrg8MiBV1)
    } else if name == "StackedDrg512MiBV1"@ {
        Some(RegisteredSealProof::StackedDrg512MiBV1)
    } else if name == "StackedDrg32GiBV1"@ {
        Some(RegisteredSealProof::StackedDrg32GiBV1)
    } else if name == "StackedDrg64GiBV1"@ {
        Some(RegisteredSealProof::StackedDrg64GiBV1)
    } else if name == "StackedDrg2KiBV1_1"@ {
        Some(RegisteredSealProof::StackedDrg2KiBV1_1)
    } else if name == "StackedDrg8MiBV1_1"@ {
        Some(RegisteredSealProof::StackedDrg8MiBV1_1)
    } else if name == "StackedDrg512MiBV1_1"@ {
        Some(RegisteredSealProof::StackedDrg512MiBV1_1)
    } else if name == "StackedDrg32GiBV1_1"@ {
        Some(RegisteredSealProof::StackedDrg32GiBV1_1)
    } else if name == "StackedDrg64GiBV1_1"@ {
        Some(RegisteredSealProof::StackedDrg64GiBV1_1)
    } else {
        None
    }
}

/// The name of a proof variant.
pub fn proof_to_name(kind: RegisteredSealProof) -> (name: String)
    ensures
        name@ == proof_name(kind),
{
    match kind {
        RegisteredSealProof::StackedDrg2KiBV1 => "StackedDrg2KiBV1".to_owned(),
        RegisteredSealProof::StackedDrg8MiBV1 => "StackedDrg8MiBV1".to_owned(),
        RegisteredSealProof::StackedDrg512MiBV1 => "StackedDrg512MiBV1".to_owned(),
        RegisteredSealProof::StackedDrg32GiBV1 => "StackedDrg32GiBV1".to_owned(),
        RegisteredSealProof::StackedDrg64GiBV1 => "StackedDrg64GiBV1".to_owned(),
        RegisteredSealProof::StackedDrg2KiBV1_1 => "StackedDrg2KiBV1_1".to_owned(),
        RegisteredSealProof::StackedDrg8MiBV1_1 => "StackedDrg8MiBV1_1".to_owned(),
        RegisteredSealProof::StackedDrg512MiBV1_1 => "StackedDrg512MiBV1_1".to_owned(),
        RegisteredSealProof::StackedDrg32GiBV1_1 => "StackedDrg32GiBV1_1".to_owned(),
        RegisteredSealProof::StackedDrg64GiBV1_1 => "StackedDrg64GiBV1_1".to_owned(),
    }
}

/// The proof variant that a name stands for.
pub fn proof_from_name(name: &str) -> (kind: Option<RegisteredSealProof>)
    ensures
        kind == proof_named(name@),
{
    if same(name, "StackedDrg2KiBV1") {
        Some(RegisteredSealProof::StackedDrg2KiBV1)
    } else if same(name, "StackedDrg8MiBV1") {
        Some(RegisteredSealProof::StackedDrg8MiBV1)
    } else if same(name, "StackedDrg512MiBV1") {
        Some(RegisteredSealProof::StackedDrg512MiBV1)
    } else if same(name, "StackedDrg32GiBV1") {
        Some(RegisteredSealProof::StackedDrg32GiBV1)
    } else if same(name, "StackedDrg64GiBV1") {
        Some(RegisteredSealProof::StackedDrg64GiBV1)
    } else if same(name, "StackedDrg2KiBV1_1") {
        Some(RegisteredSealProof::StackedDrg2KiBV1_1)
    } else if same(name, "StackedDrg8MiBV1_1") {
        Some(RegisteredSealProof::StackedDrg8MiBV1_1)
    } else if same(name, "StackedDrg512MiBV1_1") {
        Some(RegisteredSealProof::StackedDrg512MiBV1_1)
    } else if same(name, "StackedDrg32GiBV1_1") {
        Some(RegisteredSealProof::StackedDrg32GiBV1_1)
    } else if same(name, "StackedDrg64GiBV1_1") {
        Some(RegisteredSealProof::StackedDrg64GiBV1_1)
    } else {
        None
    }
}

/// The tree of some bytes: their base64 text.
pub open spec fn bytes_tree(bytes: Seq<u8>) -> JsonModel {
    JsonModel::Text(encoded(bytes))
}

/// The tree of a piece.
pub open spec fn piece_tree(piece: PieceInfoModel) -> JsonModel {
    JsonModel::Object(
        seq![
            ("commitment"@, bytes_tree(piece.commitment)),
            ("size"@, JsonModel::Int(piece.size as int)),
        ],
    )
}

/// The tree of a list of pieces.
pub open spec fn pieces_tree(pieces: Seq<PieceInfoModel>) -> JsonModel {
    JsonModel::Array(Seq::new(pieces.len(), |i: int| piece_tree(pieces[i])))
}

/// The tree of the input of a PC1 or PC job.
pub open spec fn pc1_input_tree(input: PC1InputModel) -> JsonModel {
    JsonModel::Object(
        seq![
            ("registered_proof"@, JsonModel::Text(proof_name(input.registered_proof))),
            ("storage_provider_id"@, JsonModel::Int(input.storage_provider_id.0 as int)),
            ("sector_id"@, JsonModel::Int(input.sector_id.0 as int)),
            ("ticket"@, bytes_tree(input.ticket)),
            ("ticket_epoch"@, JsonModel::Int(input.ticket_epoch.0 as int)),
        ],
    )
}

/// The tree of the input of a PC2 job.
pub open spec fn pc2_input_tree(input: PC2InputModel) -> JsonModel {
    JsonModel::Object(
        seq![
            ("pc1_output"@, bytes_tree(input.pc1_output)),
            ("sector_id"@, JsonModel::Int(input.sector_id.0 as int)),
            ("storage_provider_id"@, JsonModel::Int(input.storage_provider_id.0 as int)),
            ("registered_proof"@, JsonModel::Text(proof_name(input.registered_proof))),
        ],
    )
}

/// The tree of the input of a C1 job.
pub open spec fn c1_input_tree(input: C1InputModel) -> JsonModel {
    JsonModel::Object(
        seq![
            ("pc2_output"@, bytes_tree(input.pc2_output)),
            ("storage_provider_id"@, JsonModel::Int(input.storage_provider_id.0 as int)),
            ("sector_id"@, JsonModel::Int(input.sector_id.0 as int)),
            ("ticket"@, bytes_tree(input.ticket)),
            ("seed"@, bytes_tree(input.seed)),
            ("piece_infos"@, pieces_tree(input.piece_infos)),
            ("registered_proof"@, JsonModel::Text(proof_name(input.registered_proof))),
        ],
    )
}

/// The tree of the input of a C2 job.
pub open spec fn c2_input_tree(input: C2InputModel) -> JsonModel {
    JsonModel::Object(
        seq![
            ("c1_output"@, bytes_tree(input.c1_output)),
            ("storage_provider_id"@, JsonModel::Int(input.storage_provider_id.0 as int)),
            ("sector_id"@, JsonModel::Int(input.sector_id.0 as int)),
            ("registered_proof"@, JsonModel::Text(proof_name(input.registered_proof))),
        ],
    )
}

/// The tree of the input inside a job envelope.
pub open spec fn input_tree(job: JobHttpModel) -> JsonModel {
    match job {
        JobHttpModel::PC1(input) => pc1_input_tree(input),
        JobHttpModel::PC2(input) => pc2_input_tree(input),
        JobHttpModel::C1(input) => c1_input_tree(input),
        JobHttpModel::C2(input) => c2_input_tree(input),
        JobHttpModel::PC(input) => pc1_input_tree(input),
    }
}

/// The tree of a job envelope: the kind by name, then the input.
pub open spec fn job_tree(job: JobHttpModel) -> JsonModel {
    JsonModel::Object(
        seq![("job_type"@, JsonModel::Text(job.kind().name())), ("input"@, input_tree(job))],
    )
}

/// The tree of an output envelope: the kind by name, then the output.
pub open spec fn output_tree(output: JobOutputModel) -> JsonModel {
    JsonModel::Object(
        seq![
            ("job_type"@, JsonModel::Text(output.kind.name())),
            ("output"@, bytes_tree(output.bytes)),
        ],
    )
}

/// The tree of the body that submits an output: the key of the job, then
/// the members of the output envelope.
pub open spec fn submit_tree(body: SubmitModel) -> JsonModel {
    JsonModel::Object(
        seq![
            ("storage_provider_id"@, JsonModel::Int(body.storage_provider_id.0 as int)),
            ("sector_id"@, JsonModel::Int(body.sector_id.0 as int)),
            ("job_type"@, JsonModel::Text(body.job.kind.name())),
            ("output"@, bytes_tree(body.job.bytes)),
        ],
    )
}

/// The tree of the body that reports a failure.
pub open spec fn fail_tree(body: FailJobModel) -> JsonModel {
    JsonModel::Object(
        seq![
            ("storage_provider_id"@, JsonModel::Int(body.storage_provider_id.0 as int)),
            ("sector_id"@, JsonModel::Int(body.sector_id.0 as int)),
            ("job_type"@, JsonModel::Text(body.job_type.name())),
            ("error"@, JsonModel::Text(body.error)),
        ],
    )
}

/// The member `key` as a number of 64 bits without sign.
pub open spec fn member_u64(tree: JsonModel, key: Seq<char>) -> Option<u64> {
    match tree.member(key) {
        Some(m) => m.as_u64(),
        None => None,
    }
}

/// The member `key` as a number of 64 bits with sign.
pub open spec fn member_i64(tree: JsonModel, key: Seq<char>) -> Option<i64> {
    match tree.member(key) {
        Some(m) => m.as_i64(),
        None => None,
    }
}

/// The member `key` as text.
pub open spec fn member_text(tree: JsonModel, key: Seq<char>) -> Option<Seq<char>> {
    match tree.member(key) {
        Some(m) => m.as_text(),
        None => None,
    }
}

/// The bytes that a tree stands for: it is a string of base64 text.
pub open spec fn tree_bytes(tree: JsonModel) -> Option<Seq<u8>> {
    match tree.as_text() {
        Some(t) => decoded(t),
        None => None,
    }
}

/// The member `key` as bytes.
pub open spec fn member_bytes(tree: JsonModel, key: Seq<char>) -> Option<Seq<u8>> {
    match tree.member(key) {
        Some(m) => tree_bytes(m),
        None => None,
    }
}

/// The member `key` as exactly 32 bytes.
pub open spec fn member_bytes32(tree: JsonModel, key: Seq<char>) -> Option<Seq<u8>> {
    match member_bytes(tree, key) {
        Some(b) => if b.len() == 32 {
            Some(b)
        } else {
            None
        },
        None => None,
    }
}

/// The member `key` as a proof variant.
pub open spec fn member_proof(tree: JsonModel, key: Seq<char>) -> Option<RegisteredSealProof> {
    match member_text(tree, key) {
        Some(t) => proof_named(t),
        None => None,
    }
}

/// The member `job_type` as a job kind.
pub open spec fn member_kind(tree: JsonModel) -> Option<JobType> {
    match member_text(tree, "job_type"@) {
        Some(t) => JobType::of_name(t),
        None => None,
    }
}

/// The piece that a tree stands for.
pub open spec fn tree_piece(tree: JsonModel) -> Option<PieceInfoModel> {
    let commitment = member_bytes32(tree, "commitment"@);
    let size = member_u64(tree, "size"@);
    if commitment is Some && size is Some {
        Some(PieceInfoModel { commitment: commitment->0, size: size->0 })
    } else {
        None
    }
}

/// The pieces that a tree stands for: an array whose items all stand for
/// pieces.
pub open spec fn tree_pieces(tree: JsonModel) -> Option<Seq<PieceInfoModel>> {
    match tree.as_array() {
        Some(items) => if forall|i: int|
            0 <= i < items.len() ==> (#[trigger] tree_piece(items[i])) is Some {
            Some(Seq::new(items.len(), |i: int| tree_piece(items[i])->0))
        } else {
            None
        },
        None => None,
    }
}

/// The member `key` as a list of pieces.
pub open spec fn member_pieces(tree: JsonModel, key: Seq<char>) -> Option<Seq<PieceInfoModel>> {
    match tree.member(key) {
        Some(m) => tree_pieces(m),
        None => None,
    }
}

/// The PC1 input that a tree stands for.
pub open spec fn tree_pc1_input(tree: JsonModel) -> Option<PC1InputModel> {
    let registered_proof = member_proof(tree, "registered_proof"@);
    let provider = member_u64(tree, "storage_provider_id"@);
    let sector = member_u64(tree, "sector_id"@);
    let ticket = member_bytes32(tree, "ticket"@);
    let epoch = member_i64(tree, "ticket_epoch"@);
    if registered_proof is Some && provider is Some && sector is Some && ticket is Some && epoch
        is Some {
        Some(
            PC1InputModel {
                registered_proof: registered_proof->0,
                storage_provider_id: StorageProviderId(provider->0),
                sector_id: SectorId(sector->0),
                ticket: ticket->0,
                ticket_epoch: ChainEpoch(epoch->0),
            },
        )
    } else {
        None
    }
}

/// The PC2 input that a tree stands for.
pub open spec fn tree_pc2_input(tree: JsonModel) -> Option<PC2InputModel> {
    let output = member_bytes(tree, "pc1_output"@);
    let sector = member_u64(tree, "sector_id"@);
    let provider = member_u64(tree, "storage_provider_id"@);
    let registered_proof = member_proof(tree, "registered_proof"@);
    if output is Some && sector is Some && provider is Some && registered_proof is Some {
        Some(
            PC2InputModel {
                pc1_output: output->0,
                sector_id: SectorId(sector->0),
                storage_provider_id: StorageProviderId(provider->0),
                registered_proof: registered_proof->0,
            },
        )
    } else {
        None
    }
}

/// The C1 input that a tree stands for.
pub open spec fn tree_c1_input(tree: JsonModel) -> Option<C1InputModel> {
    let output = member_bytes(tree, "pc2_output"@);
    let provider = member_u64(tree, "storage_provider_id"@);
    let sector = member_u64(tree, "sector_id"@);
    let ticket = member_bytes32(tree, "ticket"@);
    let seed = member_bytes32(tree, "seed"@);
    let pieces = member_pieces(tree, "piece_infos"@);
    let registered_proof = member_proof(tree, "registered_proof"@);
    if output is Some && provider is Some && sector is Some && ticket is Some && seed is Some
        && pieces is Some && registered_proof is Some {
        Some(
            C1InputModel {
                pc2_output: output->0,
                storage_provider_id: StorageProviderId(provider->0),
                sector_id: SectorId(sector->0),
                ticket: ticket->0,
                seed: seed->0,
                piece_infos: pieces->0,
                registered_proof: registered_proof->0,
            },
        )
    } else {
        None
    }
}

/// The C2 input that a tree stands for.
pub open spec fn tree_c2_input(tree: JsonModel) -> Option<C2InputModel> {
    let output = member_bytes(tree, "c1_output"@);
    let provider = member_u64(tree, "storage_provider_id"@);
    let sector = member_u64(tree, "sector_id"@);
    let registered_proof = member_proof(tree, "registered_proof"@);
    if output is Some && provider is Some && sector is Some && registered_proof is Some {
        Some(
            C2InputModel {
                c1_output: output->0,
                storage_provider_id: StorageProviderId(provider->0),
                sector_id: SectorId(sector->0),
                registered_proof: registered_proof->0,
            },
        )
    } else {
        None
    }
}

/// The job envelope of the given kind whose input a tree stands for.
pub open spec fn tree_input(kind: JobType, tree: JsonModel) -> Option<JobHttpModel> {
    match kind {
        JobType::PC1 => match tree_pc1_input(tree) {
            Some(input) => Some(JobHttpModel::PC1(input)),
            None => None,
        },
        JobType::PC2 => match tree_pc2_input(tree) {
            Some(input) => Some(JobHttpModel::PC2(input)),
            None => None,
        },
        JobType::C1 => match tree_c1_input(tree) {
            Some(input) => Some(JobHttpModel::C1(input)),
            None => None,
        },
        JobType::C2 => match tree_c2_input(tree) {
            Some(input) => Some(JobHttpModel::C2(input)),
            None => None,
        },
        JobType::PC => match tree_pc1_input(tree) {
            Some(input) => Some(JobHttpModel::PC(input)),
            None => None,
        },
    }
}

/// The job envelope that a tree stands for: the kind is named under
/// `job_type`, the input of that kind stands under `input`.
pub open spec fn tree_job(tree: JsonModel) -> Option<JobHttpModel> {
    match (member_kind(tree), tree.member("input"@)) {
        (Some(kind), Some(input)) => tree_input(kind, input),
        _ => None,
    }
}

/// The job envelopes that a tree stands for: an object whose member `jobs`
/// is an array of job envelopes.
pub open spec fn tree_jobs(tree: JsonModel) -> Option<Seq<JobHttpModel>> {
    match tree.member("jobs"@) {
        Some(list) => match list.as_array() {
            Some(items) => if forall|i: int|
                0 <= i < items.len() ==> (#[trigger] tree_job(items[i])) is Some {
                Some(Seq::new(items.len(), |i: int| tree_job(items[i])->0))
            } else {
                None
            },
            None => None,
        },
        None => None,
    }
}

/// The output envelope that a tree stands for: the kind is named under
/// `job_type`, the bytes stand under `output`.
pub open spec fn tree_output(tree: JsonModel) -> Option<JobOutputModel> {
    match (member_kind(tree), member_bytes(tree, "output"@)) {
        (Some(kind), Some(bytes)) => Some(JobOutputModel { kind, bytes }),
        _ => None,
    }
}

/// The state that a tree stands for: an object whose member `state` names
/// it.
pub open spec fn tree_state(tree: JsonModel) -> Option<JobState> {
    match member_text(tree, "state"@) {
        Some(name) => JobState::of_name(name),
        None => None,
    }
}

/// The failure message that a tree stands for: the text of the member
/// `err`.
pub open spec fn tree_failure(tree: JsonModel) -> Option<Seq<char>> {
    member_text(tree, "err"@)
}

/// The tree of a piece can be written as it is.
pub proof fn lemma_piece_tree_plain(piece: PieceInfoModel)
    ensures
        piece_tree(piece).plain(),
{
    reveal_strlit("commitment");
    reveal_strlit("size");
    let entries = piece_tree(piece)->Object_0;
    assert(entries[0].0.len() == 10 && entries[1].0.len() == 4);
    assert(distinct_names(entries));
    assert(entries[0].1.plain() && entries[1].1.plain());
}

/// The tree of a list of pieces can be written as it is.
pub proof fn lemma_pieces_tree_plain(pieces: Seq<PieceInfoModel>)
    ensures
        pieces_tree(pieces).plain(),
{
    let items = pieces_tree(pieces)->Array_0;
    assert forall|i: int| 0 <= i < items.len() implies (#[trigger] items[i]).plain() by {
        lemma_piece_tree_plain(pieces[i]);
    }
}

/// The tree of the input of a PC1 or PC job can be written as it is.
pub proof fn lemma_pc1_input_tree_plain(input: PC1InputModel)
    ensures
        pc1_input_tree(input).plain(),
{
    reveal_strlit("registered_proof");
    reveal_strlit("storage_provider_id");
    reveal_strlit("sector_id");
    reveal_strlit("ticket");
    reveal_strlit("ticket_epoch");
    let entries = pc1_input_tree(input)->Object_0;
    assert(entries[0].0.len() == 16 && entries[1].0.len() == 19 && entries[2].0.len() == 9
        && entries[3].0.len() == 6 && entries[4].0.len() == 12);
    assert(distinct_names(entries));
    assert(entries[0].1.plain() && entries[1].1.plain() && entries[2].1.plain()
        && entries[3].1.plain() && entries[4].1.plain());
}

/// The tree of the input of a PC2 job can be written as it is.
pub proof fn lemma_pc2_input_tree_plain(input: PC2InputModel)
    ensures
        pc2_input_tree(input).plain(),
{
    reveal_strlit("pc1_output");
    reveal_strlit("sector_id");
    reveal_strlit("storage_provider_id");
    reveal_strlit("registered_proof");
    let entries = pc2_input_tree(input)->Object_0;
    assert(entries[0].0.len() == 10 && entries[1].0.len() == 9 && entries[2].0.len() == 19
        && entries[3].0.len() == 16);
    assert(distinct_names(entries));
    assert(entries[0].1.plain() && entries[1].1.plain() && entries[2].1.plain()
        && entries[3].1.plain());
}

/// The tree of the input of a C1 job can be written as it is.
pub proof fn lemma_c1_input_tree_plain(input: C1InputModel)
    ensures
        c1_input_tree(input).plain(),
{
    reveal_strlit("pc2_output");
    reveal_strlit("storage_provider_id");
    reveal_strlit("sector_id");
    reveal_strlit("ticket");
    reveal_strlit("seed");
    reveal_strlit("piece_infos");
    reveal_strlit("registered_proof");
    lemma_pieces_tree_plain(input.piece_infos);
    let entries = c1_input_tree(input)->Object_0;
    assert(entries[0].0.len() == 10 && entries[1].0.len() == 19 && entries[2].0.len() == 9
        && entries[3].0.len() == 6 && entries[4].0.len() == 4 && entries[5].0.len() == 11
        && entries[6].0.len() == 16);
    assert(distinct_names(entries));
    assert(entries[0].1.plain() && entries[1].1.plain() && entries[2].1.plain()
        && entries[3].1.plain() && entries[4].1.plain() && entries[5].1.plain()
        && entries[6].1.plain());
}

/// The tree of the input of a C2 job can be written as it is.
pub proof fn lemma_c2_input_tree_plain(input: C2InputModel)
    ensures
        c2_input_tree(input).plain(),
{
    reveal_strlit("c1_output");
    reveal_strlit("storage_provider_id");
    reveal_strlit("sector_id");
    reveal_strlit("registered_proof");
    let entries = c2_input_tree(input)->Object_0;
    assert(entries[0].0.len() == 9 && entries[1].0.len() == 19 && entries[2].0.len() == 9
        && entries[3].0.len() == 16);
    assert(entries[0].0[0] != entries[2].0[0]);
    assert(distinct_names(entries));
    assert(entries[0].1.plain() && entries[1].1.plain() && entries[2].1.plain()
        && entries[3].1.plain());
}

/// The tree of a job envelope can be written as it is.
pub proof fn lemma_job_tree_plain(job: JobHttpModel)
    ensures
        job_tree(job).plain(),
{
    reveal_strlit("job_type");
    reveal_strlit("input");
    match job {
        JobHttpModel::PC1(input) => lemma_pc1_input_tree_plain(input),
        JobHttpModel::PC2(input) => lemma_pc2_input_tree_plain(input),
        JobHttpModel::C1(input) => lemma_c1_input_tree_plain(input),
        JobHttpModel::C2(input) => lemma_c2_input_tree_plain(input),
        JobHttpModel::PC(input) => lemma_pc1_input_tree_plain(input),
    }
    let entries = job_tree(job)->Object_0;
    assert(entries[0].0.len() == 8 && entries[1].0.len() == 5);
    assert(distinct_names(entries));
    assert(entries[0].1.plain() && entries[1].1.plain());
}

/// The tree of an output envelope can be written as it is.
pub proof fn lemma_output_tree_plain(output: JobOutputModel)
    ensures
        output_tree(output).plain(),
{
    reveal_strlit("job_type");
    reveal_strlit("output");
    let entries = output_tree(output)->Object_0;
    assert(entries[0].0.len() == 8 && entries[1].0.len() == 6);
    assert(distinct_names(entries));
    assert(entries[0].1.plain() && entries[1].1.plain());
}

/// The tree of the body that submits an output can be written as it is.
pub proof fn lemma_submit_tree_plain(body: SubmitModel)
    ensures
        submit_tree(body).plain(),
{
    reveal_strlit("storage_provider_id");
    reveal_strlit("sector_id");
    reveal_strlit("job_type");
    reveal_strlit("output");
    let entries = submit_tree(body)->Object_0;
    assert(entries[0].0.len() == 19 && entries[1].0.len() == 9 && entries[2].0.len() == 8
        && entries[3].0.len() == 6);
    assert(distinct_names(entries));
    assert(entries[0].1.plain() && entries[1].1.plain() && entries[2].1.plain()
        && entries[3].1.plain());
}

/// The tree of the body that reports a failure can be written as it is.
pub proof fn lemma_fail_tree_plain(body: FailJobModel)
    ensures
        fail_tree(body).plain(),
{
    reveal_strlit("storage_provider_id");
    reveal_strlit("sector_id");
    reveal_strlit("job_type");
    reveal_strlit("error");
    let entries = fail_tree(body)->Object_0;
    assert(entries[0].0.len() == 19 && entries[1].0.len() == 9 && entries[2].0.len() == 8
        && entries[3].0.len() == 5);
    assert(distinct_names(entries));
    assert(entries[0].1.plain() && entries[1].1.plain() && entries[2].1.plain()
        && entries[3].1.plain());
}

/// A proof variant is found again from its name.
pub proof fn lemma_proof_name_round_trip(kind: RegisteredSealProof)
    ensures
        proof_named(proof_name(kind)) == Some(kind),
{
    reveal_strlit("StackedDrg2KiBV1");
    reveal_strlit("StackedDrg8MiBV1");
    reveal_strlit("StackedDrg512MiBV1");
    reveal_strlit("StackedDrg32GiBV1");
    reveal_strlit("StackedDrg64GiBV1");
    reveal_strlit("StackedDrg2KiBV1_1");
    reveal_strlit("StackedDrg8MiBV1_1");
    reveal_strlit("StackedDrg512MiBV1_1");
    reveal_strlit("StackedDrg32GiBV1_1");
    reveal_strlit("StackedDrg64GiBV1_1");
    assert("StackedDrg2KiBV1"@.len() == 16 && "StackedDrg2KiBV1"@[10] == '2');
    assert("StackedDrg8MiBV1"@.len() == 16 && "StackedDrg8MiBV1"@[10] == '8');
    assert("StackedDrg512MiBV1"@.len() == 18 && "StackedDrg512MiBV1"@[10] == '5');
    assert("StackedDrg32GiBV1"@.len() == 17 && "StackedDrg32GiBV1"@[10] == '3');
    assert("StackedDrg64GiBV1"@.len() == 17 && "StackedDrg64GiBV1"@[10] == '6');
    assert("StackedDrg2KiBV1_1"@.len() == 18 && "StackedDrg2KiBV1_1"@[10] == '2');
    assert("StackedDrg8MiBV1_1"@.len() == 18 && "StackedDrg8MiBV1_1"@[10] == '8');
    assert("StackedDrg512MiBV1_1"@.len() == 20 && "StackedDrg512MiBV1_1"@[10] == '5');
    assert("StackedDrg32GiBV1_1"@.len() == 19 && "StackedDrg32GiBV1_1"@[10] == '3');
    assert("StackedDrg64GiBV1_1"@.len() == 19 && "StackedDrg64GiBV1_1"@[10] == '6');
}

/// In an object without a name twice, looking up the name of an entry finds
/// the value of that entry.
pub proof fn lemma_lookup_distinct(entries: Seq<(Seq<char>, JsonModel)>, i: int)
    requires
        distinct_names(entries),
        0 <= i < entries.len(),
    ensures
        lookup(entries, entries[i].0) == Some(entries[i].1),
    decreases entries.len(),
{
    if i < entries.len() - 1 {
        let shorter = entries.drop_last();
        assert(distinct_names(shorter));
        assert(shorter[i] == entries[i]);
        lemma_lookup_distinct(shorter, i);
    }
}

/// Bytes that are read back from their base64 text as they were.
pub open spec fn readable(bytes: Seq<u8>) -> bool {
    decoded(encoded(bytes)) == Some(bytes)
}

/// A piece whose commitment has 32 bytes and is readable.
pub open spec fn readable_piece(piece: PieceInfoModel) -> bool {
    piece.commitment.len() == 32 && readable(piece.commitment)
}

/// A job whose tickets and commitments have 32 bytes each, and whose bytes
/// are all readable.
pub open spec fn readable_job(job: JobHttpModel) -> bool {
    match job {
        JobHttpModel::PC1(input) => input.ticket.len() == 32 && readable(input.ticket),
        JobHttpModel::PC(input) => input.ticket.len() == 32 && readable(input.ticket),
        JobHttpModel::PC2(input) => readable(input.pc1_output),
        JobHttpModel::C1(input) => readable(input.pc2_output) && input.ticket.len() == 32
            && readable(input.ticket) && input.seed.len() == 32 && readable(input.seed)
            && forall|i: int|
            0 <= i < input.piece_infos.len() ==> readable_piece(#[trigger] input.piece_infos[i]),
        JobHttpModel::C2(input) => readable(input.c1_output),
    }
}

/// The tree of a readable piece is read back as that piece.
pub proof fn lemma_piece_reads_back(piece: PieceInfoModel)
    requires
        readable_piece(piece),
    ensures
        tree_piece(piece_tree(piece)) == Some(piece),
{
    lemma_piece_tree_plain(piece);
    let entries = piece_tree(piece)->Object_0;
    lemma_lookup_distinct(entries, 0);
    lemma_lookup_distinct(entries, 1);
}

/// The tree of a list of readable pieces is read back as that list.
pub proof fn lemma_pieces_read_back(pieces: Seq<PieceInfoModel>)
    requires
        forall|i: int| 0 <= i < pieces.len() ==> readable_piece(#[trigger] pieces[i]),
    ensures
        tree_pieces(pieces_tree(pieces)) == Some(pieces),
{
    let items = pieces_tree(pieces)->Array_0;
    assert forall|i: int| 0 <= i < items.len() implies (#[trigger] tree_piece(items[i])) == Some(
        pieces[i],
    ) by {
        lemma_piece_reads_back(pieces[i]);
    }
    assert(Seq::new(items.len(), |i: int| tree_piece(items[i])->0) =~= pieces);
}

/// The tree of a readable job is read back as that job.
pub proof fn lemma_job_reads_back(job: JobHttpModel)
    requires
        readable_job(job),
    ensures
        tree_input(job.kind(), input_tree(job)) == Some(job),
        tree_job(job_tree(job)) == Some(job),
{
    lemma_job_tree_plain(job);
    crate::job::lemma_job_type_round_trip(job.kind());
    let envelope = job_tree(job)->Object_0;
    lemma_lookup_distinct(envelope, 0);
    lemma_lookup_distinct(envelope, 1);
    let entries = input_tree(job)->Object_0;
    match job {
        JobHttpModel::PC1(input) => {
            lemma_pc1_input_tree_plain(input);
            lemma_proof_name_round_trip(input.registered_proof);
            lemma_lookup_distinct(entries, 0);
            lemma_lookup_distinct(entries, 1);
            lemma_lookup_distinct(entries, 2);
            lemma_lookup_distinct(entries, 3);
            lemma_lookup_distinct(entries, 4);
        },
        JobHttpModel::PC(input) => {
            lemma_pc1_input_tree_plain(input);
            lemma_proof_name_round_trip(input.registered_proof);
            lemma_lookup_distinct(entries, 0);
            lemma_lookup_distinct(entries, 1);
            lemma_lookup_distinct(entries, 2);
            lemma_lookup_distinct(entries, 3);
            lemma_lookup_distinct(entries, 4);
        },
        JobHttpModel::PC2(input) => {
            lemma_pc2_input_tree_plain(input);
            lemma_proof_name_round_trip(input.registered_proof);
            lemma_lookup_distinct(entries, 0);
            lemma_lookup_distinct(entries, 1);
            lemma_lookup_distinct(entries, 2);
            lemma_lookup_distinct(entries, 3);
        },
        JobHttpModel::C1(input) => {
            lemma_c1_input_tree_plain(input);
            lemma_proof_name_round_trip(input.registered_proof);
            lemma_pieces_read_back(input.piece_infos);
            lemma_lookup_distinct(entries, 0);
            lemma_lookup_distinct(entries, 1);
            lemma_lookup_distinct(entries, 2);
            lemma_lookup_distinct(entries, 3);
            lemma_lookup_distinct(entries, 4);
            lemma_lookup_distinct(entries, 5);
            lemma_lookup_distinct(entries, 6);
        },
        JobHttpModel::C2(input) => {
            lemma_c2_input_tree_plain(input);
            lemma_proof_name_round_trip(input.registered_proof);
            lemma_lookup_distinct(entries, 0);
            lemma_lookup_distinct(entries, 1);
            lemma_lookup_distinct(entries, 2);
            lemma_lookup_distinct(entries, 3);
        },
    }
}

/// The tree of an output envelope with readable bytes is read back as that
/// envelope.
pub proof fn lemma_output_reads_back(output: JobOutputModel)
    requires
        readable(output.bytes),
    ensures
        tree_output(output_tree(output)) == Some(output),
{
    lemma_output_tree_plain(output);
    crate::job::lemma_job_type_round_trip(output.kind);
    let entries = output_tree(output)->Object_0;
    lemma_lookup_distinct(entries, 0);
    lemma_lookup_distinct(entries, 1);
}

/// Adds an entry at the end of the entries of an object.
fn put(entries: &mut Vec<(String, Json)>, key: &str, value: Json)
    ensures
        entry_models(final(entries)@) == entry_models(old(entries)@).push((key@, value@)),
{
    entries.push((key.to_owned(), value));
    proof {
        assert(entries@.drop_last() =~= old(entries)@);
    }
}

/// The tree of some bytes.
pub fn encode_bytes(bytes: &[u8]) -> (tree: Json)
    ensures
        tree@ == bytes_tree(bytes@),
        readable(bytes@),
{
    Json::Text(encode(bytes))
}

/// The tree of a piece, which is read back as that piece.
pub fn encode_piece(piece: &PieceInfo) -> (tree: Json)
    ensures
        tree@ == piece_tree(piece@),
        readable_piece(piece@),
        tree_piece(tree@) == Some(piece@),
{
    let mut entries: Vec<(String, Json)> = Vec::new();
    put(&mut entries, "commitment", encode_bytes(piece.commitment.0.as_slice()));
    put(&mut entries, "size", Json::Unsigned(piece.size.0));
    let tree = Json::Object(entries);
    proof {
        assert(tree@->Object_0 =~= piece_tree(piece@)->Object_0);
        lemma_piece_reads_back(piece@);
    }
    tree
}

/// The tree of a list of pieces.
pub fn encode_pieces(pieces: &Vec<PieceInfo>) -> (tree: Json)
    ensures
        tree@ == pieces_tree(piece_models(pieces@)),
        forall|i: int| 0 <= i < pieces@.len() ==> readable_piece(#[trigger] pieces@[i]@),
{
    let mut items: Vec<Json> = Vec::new();
    let mut i: usize = 0;
    while i < pieces.len()
        invariant
            i <= pieces.len(),
            items@.len() == i,
            forall|k: int| 0 <= k < i ==> (#[trigger] items@[k])@ == piece_tree(pieces@[k]@),
            forall|k: int| 0 <= k < i ==> readable_piece(#[trigger] pieces@[k]@),
        decreases pieces.len() - i,
    {
        items.push(encode_piece(&pieces[i]));
        i = i + 1;
    }
    proof {
        lemma_item_models(items@);
        assert(item_models(items@) =~= Seq::new(
            piece_models(pieces@).len(),
            |i: int| piece_tree(piece_models(pieces@)[i]),
        ));
    }
    Json::Array(items)
}

/// The tree of the input of a PC1 or PC job.
pub fn encode_pc1_input(input: &PC1Input) -> (tree: Json)
    ensures
        tree@ == pc1_input_tree(input@),
        readable(input@.ticket),
{
    let mut entries: Vec<(String, Json)> = Vec::new();
    put(&mut entries, "registered_proof", Json::Text(proof_to_name(input.registered_proof)));
    put(&mut entries, "storage_provider_id", Json::Unsigned(input.storage_provider_id.0));
    put(&mut entries, "sector_id", Json::Unsigned(input.sector_id.0));
    put(&mut entries, "ticket", encode_bytes(input.ticket.0.as_slice()));
    put(&mut entries, "ticket_epoch", Json::Signed(input.ticket_epoch.0));
    let tree = Json::Object(entries);
    proof {
        assert(tree@->Object_0 =~= pc1_input_tree(input@)->Object_0);
    }
    tree
}

/// The tree of the input of a PC2 job.
pub fn encode_pc2_input(input: &PC2Input) -> (tree: Json)
    ensures
        tree@ == pc2_input_tree(input@),
        readable(input@.pc1_output),
{
    let mut entries: Vec<(String, Json)> = Vec::new();
    put(&mut entries, "pc1_output", encode_bytes(input.pc1_output.as_ref()));
    put(&mut entries, "sector_id", Json::Unsigned(input.sector_id.0));
    put(&mut entries, "storage_provider_id", Json::Unsigned(input.storage_provider_id.0));
    put(&mut entries, "registered_proof", Json::Text(proof_to_name(input.registered_proof)));
    let tree = Json::Object(entries);
    proof {
        assert(tree@->Object_0 =~= pc2_input_tree(input@)->Object_0);
    }
    tree
}

/// The tree of the input of a C1 job.
pub fn encode_c1_input(input: &C1Input) -> (tree: Json)
    ensures
        tree@ == c1_input_tree(input@),
        readable(input@.pc2_output),
        readable(input@.ticket),
        readable(input@.seed),
        forall|i: int|
            0 <= i < input@.piece_infos.len() ==> readable_piece(#[trigger] input@.piece_infos[i]),
{
    let mut entries: Vec<(String, Json)> = Vec::new();
    put(&mut entries, "pc2_output", encode_bytes(input.pc2_output.as_ref()));
    put(&mut entries, "storage_provider_id", Json::Unsigned(input.storage_provider_id.0));
    put(&mut entries, "sector_id", Json::Unsigned(input.sector_id.0));
    put(&mut entries, "ticket", encode_bytes(input.ticket.0.as_slice()));
    put(&mut entries, "seed", encode_bytes(input.seed.0.as_slice()));
    put(&mut entries, "piece_infos", encode_pieces(&input.piece_infos));
    put(&mut entries, "registered_proof", Json::Text(proof_to_name(input.registered_proof)));
    let tree = Json::Object(entries);
    proof {
        assert(tree@->Object_0 =~= c1_input_tree(input@)->Object_0);
    }
    tree
}

/// The tree of the input of a C2 job.
pub fn encode_c2_input(input: &C2Input) -> (tree: Json)
    ensures
        tree@ == c2_input_tree(input@),
        readable(input@.c1_output),
{
    let mut entries: Vec<(String, Json)> = Vec::new();
    put(&mut entries, "c1_output", encode_bytes(input.c1_output.as_ref()));
    put(&mut entries, "storage_provider_id", Json::Unsigned(input.storage_provider_id.0));
    put(&mut entries, "sector_id", Json::Unsigned(input.sector_id.0));
    put(&mut entries, "registered_proof", Json::Text(proof_to_name(input.registered_proof)));
    let tree = Json::Object(entries);
    proof {
        assert(tree@->Object_0 =~= c2_input_tree(input@)->Object_0);
    }
    tree
}

/// The tree of a job envelope, which is read back as that envelope.
pub fn encode_job(job: &JobHttp) -> (tree: Json)
    ensures
        tree@ == job_tree(job@),
        readable_job(job@),
        tree_job(tree@) == Some(job@),
{
    let input = match job {
        JobHttp::PC1(job) => encode_pc1_input(&job.input),
        JobHttp::PC2(job) => encode_pc2_input(&job.input),
        JobHttp::C1(job) => encode_c1_input(&job.input),
        JobHttp::C2(job) => encode_c2_input(&job.input),
        JobHttp::PC(job) => encode_pc1_input(&job.input),
    };
    let mut entries: Vec<(String, Json)> = Vec::new();
    put(&mut entries, "job_type", Json::Text(job.job_type().to_string()));
    put(&mut entries, "input", input);
    let tree = Json::Object(entries);
    proof {
        assert(tree@->Object_0 =~= job_tree(job@)->Object_0);
        lemma_job_reads_back(job@);
    }
    tree
}

/// The tree of an output envelope, which is read back as that envelope.
pub fn encode_output(output: &JobOutputHttp) -> (tree: Json)
    ensures
        tree@ == output_tree(output@),
        readable(output@.bytes),
        tree_output(tree@) == Some(output@),
{
    let mut entries: Vec<(String, Json)> = Vec::new();
    put(&mut entries, "job_type", Json::Text(output.job_type().to_string()));
    put(&mut entries, "output", encode_bytes(output.as_ref()));
    let tree = Json::Object(entries);
    proof {
        assert(tree@->Object_0 =~= output_tree(output@)->Object_0);
        lemma_output_reads_back(output@);
    }
    tree
}

/// The tree of the body that submits an output.
pub fn encode_submit(body: &SubmitSealingJobOutput) -> (tree: Json)
    ensures
        tree@ == submit_tree(body@),
{
    let mut entries: Vec<(String, Json)> = Vec::new();
    put(&mut entries, "storage_provider_id", Json::Unsigned(body.storage_provider_id.0));
    put(&mut entries, "sector_id", Json::Unsigned(body.sector_id.0));
    put(&mut entries, "job_type", Json::Text(body.job.job_type().to_string()));
    put(&mut entries, "output", encode_bytes(body.job.as_ref()));
    let tree = Json::Object(entries);
    proof {
        assert(tree@->Object_0 =~= submit_tree(body@)->Object_0);
    }
    tree
}

/// The tree of the body that reports a failure.
pub fn encode_fail(body: &FailJob) -> (tree: Json)
    ensures
        tree@ == fail_tree(body@),
{
    let mut entries: Vec<(String, Json)> = Vec::new();
    put(&mut entries, "storage_provider_id", Json::Unsigned(body.storage_provider_id.0));
    put(&mut entries, "sector_id", Json::Unsigned(body.sector_id.0));
    put(&mut entries, "job_type", Json::Text(body.job_type.to_string()));
    put(&mut entries, "error", Json::Text(body.error.clone()));
    let tree = Json::Object(entries);
    proof {
        assert(tree@->Object_0 =~= fail_tree(body@)->Object_0);
    }
    tree
}

/// Reads the member `key` as a number of 64 bits without sign.
pub fn read_u64(tree: &Json, key: &str) -> (n: Option<u64>)
    ensures
        n == member_u64(tree@, key@),
{
    match tree.get(key) {
        Some(m) => m.as_u64(),
        None => None,
    }
}

/// Reads the member `key` as a number of 64 bits with sign.
pub fn read_i64(tree: &Json, key: &str) -> (n: Option<i64>)
    ensures
        n == member_i64(tree@, key@),
{
    match tree.get(key) {
        Some(m) => m.as_i64(),
        None => None,
    }
}

/// Reads the member `key` as text.
pub fn read_text<'a>(tree: &'a Json, key: &str) -> (text: Option<&'a str>)
    ensures
        match text {
            Some(t) => member_text(tree@, key@) == Some(t@),
            None => member_text(tree@, key@) is None,
        },
{
    match tree.get(key) {
        Some(m) => m.as_str(),
        None => None,
    }
}

/// Reads a tree as bytes.
pub fn decode_bytes(tree: &Json) -> (bytes: Option<Vec<u8>>)
    ensures
        match bytes {
            Some(b) => tree_bytes(tree@) == Some(b@),
            None => tree_bytes(tree@) is None,
        },
{
    match tree.as_str() {
        Some(t) => decode(t),
        None => None,
    }
}

/// Reads the member `key` as bytes.
pub fn read_bytes(tree: &Json, key: &str) -> (bytes: Option<Vec<u8>>)
    ensures
        match bytes {
            Some(b) => member_bytes(tree@, key@) == Some(b@),
            None => member_bytes(tree@, key@) is None,
        },
{
    match tree.get(key) {
        Some(m) => decode_bytes(m),
        None => None,
    }
}

/// Reads the member `key` as exactly 32 bytes.
pub fn read_bytes32(tree: &Json, key: &str) -> (bytes: Option<[u8; 32]>)
    ensures
        match bytes {
            Some(b) => member_bytes32(tree@, key@) == Some(b@),
            None => member_bytes32(tree@, key@) is None,
        },
{
    match read_bytes(tree, key) {
        Some(b) => {
            if b.len() != 32 {
                return None;
            }
            let mut array = [0u8; 32];
            let mut i: usize = 0;
            while i < 32
                invariant
                    i <= 32,
                    b.len() == 32,
                    forall|k: int| 0 <= k < i ==> array@[k] == b@[k],
                decreases 32 - i,
            {
                array[i] = b[i];
                i = i + 1;
            }
            assert(array@ =~= b@);
            Some(array)
        },
        None => None,
    }
}

/// Reads the member `key` as a proof variant.
pub fn read_proof(tree: &Json, key: &str) -> (kind: Option<RegisteredSealProof>)
    ensures
        kind == member_proof(tree@, key@),
{
    match read_text(tree, key) {
        Some(t) => proof_from_name(t),
        None => None,
    }
}

/// Reads the member `job_type` as a job kind.
pub fn read_kind(tree: &Json) -> (kind: Option<JobType>)
    ensures
        kind == member_kind(tree@),
{
    match read_text(tree, "job_type") {
        Some(t) => JobType::from_name(t),
        None => None,
    }
}

/// Reads a tree as a piece.
pub fn decode_piece(tree: &Json) -> (piece: Option<PieceInfo>)
    ensures
        match piece {
            Some(p) => tree_piece(tree@) == Some(p@),
            None => tree_piece(tree@) is None,
        },
{
    let commitment = match read_bytes32(tree, "commitment") {
        Some(v) => v,
        None => return None,
    };
    let size = match read_u64(tree, "size") {
        Some(v) => v,
        None => return None,
    };
    Some(PieceInfo { commitment: Commitment(commitment), size: UnpaddedBytesAmount(size) })
}

/// Reads a tree as a list of pieces.
pub fn decode_pieces(tree: &Json) -> (pieces: Option<Vec<PieceInfo>>)
    ensures
        match pieces {
            Some(p) => tree_pieces(tree@) == Some(piece_models(p@)),
            None => tree_pieces(tree@) is None,
        },
{
    let items = match tree.as_array() {
        Some(items) => items,
        None => return None,
    };
    let ghost models = item_models(items@);
    proof {
        lemma_item_models(items@);
    }
    let mut pieces: Vec<PieceInfo> = Vec::new();
    let mut i: usize = 0;
    while i < items.len()
        invariant
            i <= items.len(),
            pieces@.len() == i,
            models.len() == items@.len(),
            forall|k: int| 0 <= k < models.len() ==> (#[trigger] models[k]) == items@[k]@,
            forall|k: int| 0 <= k < i ==> tree_piece(#[trigger] models[k]) == Some(pieces@[k]@),
            tree@.as_array() == Some(models),
        decreases items.len() - i,
    {
        match decode_piece(&items[i]) {
            Some(piece) => {
                pieces.push(piece);
            },
            None => {
                assert(tree_piece(models[i as int]) is None);
                return None;
            },
        }
        i = i + 1;
    }
    proof {
        assert(piece_models(pieces@) =~= Seq::new(models.len(), |i: int| tree_piece(models[i])->0));
    }
    Some(pieces)
}

/// Reads the member `key` as a list of pieces.
pub fn read_pieces(tree: &Json, key: &str) -> (pieces: Option<Vec<PieceInfo>>)
    ensures
        match pieces {
            Some(p) => member_pieces(tree@, key@) == Some(piece_models(p@)),
            None => member_pieces(tree@, key@) is None,
        },
{
    match tree.get(key) {
        Some(m) => decode_pieces(m),
        None => None,
    }
}

/// Reads a tree as the input of a PC1 or PC job.
pub fn decode_pc1_input(tree: &Json) -> (input: Option<PC1Input>)
    ensures
        match input {
            Some(v) => tree_pc1_input(tree@) == Some(v@),
            None => tree_pc1_input(tree@) is None,
        },
{
    let registered_proof = match read_proof(tree, "registered_proof") {
        Some(v) => v,
        None => return None,
    };
    let provider = match read_u64(tree, "storage_provider_id") {
        Some(v) => v,
        None => return None,
    };
    let sector = match read_u64(tree, "sector_id") {
        Some(v) => v,
        None => return None,
    };
    let ticket = match read_bytes32(tree, "ticket") {
        Some(v) => v,
        None => return None,
    };
    let epoch = match read_i64(tree, "ticket_epoch") {
        Some(v) => v,
        None => return None,
    };
    Some(
        PC1Input {
            registered_proof,
            storage_provider_id: StorageProviderId(provider),
            sector_id: SectorId(sector),
            ticket: Ticket(ticket),
            ticket_epoch: ChainEpoch(epoch),
        },
    )
}

/// Reads a tree as the input of a PC2 job.
pub fn decode_pc2_input(tree: &Json) -> (input: Option<PC2Input>)
    ensures
        match input {
            Some(v) => tree_pc2_input(tree@) == Some(v@),
            None => tree_pc2_input(tree@) is None,
        },
{
    let output = match read_bytes(tree, "pc1_output") {
        Some(v) => v,
        None => return None,
    };
    let sector = match read_u64(tree, "sector_id") {
        Some(v) => v,
        None => return None,
    };
    let provider = match read_u64(tree, "storage_provider_id") {
        Some(v) => v,
        None => return None,
    };
    let registered_proof = match read_proof(tree, "registered_proof") {
        Some(v) => v,
        None => return None,
    };
    Some(
        PC2Input {
            pc1_output: PC1Output(output),
            sector_id: SectorId(sector),
            storage_provider_id: StorageProviderId(provider),
            registered_proof,
        },
    )
}

/// Reads a tree as the input of a C1 job.
pub fn decode_c1_input(tree: &Json) -> (input: Option<C1Input>)
    ensures
        match input {
            Some(v) => tree_c1_input(tree@) == Some(v@),
            None => tree_c1_input(tree@) is None,
        },
{
    let output = match read_bytes(tree, "pc2_output") {
        Some(v) => v,
        None => return None,
    };
    let provider = match read_u64(tree, "storage_provider_id") {
        Some(v) => v,
        None => return None,
    };
    let sector = match read_u64(tree, "sector_id") {
        Some(v) => v,
        None => return None,
    };
    let ticket = match read_bytes32(tree, "ticket") {
        Some(v) => v,
        None => return None,
    };
    let seed = match read_bytes32(tree, "seed") {
        Some(v) => v,
        None => return None,
    };
    let pieces = match read_pieces(tree, "piece_infos") {
        Some(v) => v,
        None => return None,
    };
    let registered_proof = match read_proof(tree, "registered_proof") {
        Some(v) => v,
        None => return None,
    };
    Some(
        C1Input {
            pc2_output: PC2Output(output),
            storage_provider_id: StorageProviderId(provider),
            sector_id: SectorId(sector),
            ticket: Ticket(ticket),
            seed: Ticket(seed),
            piece_infos: pieces,
            registered_proof,
        },
    )
}

/// Reads a tree as the input of a C2 job.
pub fn decode_c2_input(tree: &Json) -> (input: Option<C2Input>)
    ensures
        match input {
            Some(v) => tree_c2_input(tree@) == Some(v@),
            None => tree_c2_input(tree@) is None,
        },
{
    let output = match read_bytes(tree, "c1_output") {
        Some(v) => v,
        None => return None,
    };
    let provider = match read_u64(tree, "storage_provider_id") {
        Some(v) => v,
        None => return None,
    };
    let sector = match read_u64(tree, "sector_id") {
        Some(v) => v,
        None => return None,
    };
    let registered_proof = match read_proof(tree, "registered_proof") {
        Some(v) => v,
        None => return None,
    };
    Some(
        C2Input {
            c1_output: C1Output(output),
            storage_provider_id: StorageProviderId(provider),
            sector_id: SectorId(sector),
            registered_proof,
        },
    )
}

/// Reads a tree as a job envelope.
pub fn decode_job(tree: &Json) -> (job: Option<JobHttp>)
    ensures
        match job {
            Some(j) => tree_job(tree@) == Some(j@),
            None => tree_job(tree@) is None,
        },
{
    let kind = match read_kind(tree) {
        Some(v) => v,
        None => return None,
    };
    let input = match tree.get("input") {
        Some(v) => v,
        None => return None,
    };
    match kind {
        JobType::PC1 => match decode_pc1_input(input) {
            Some(input) => Some(JobHttp::PC1(PC1 { input })),
            None => None,
        },
        JobType::PC2 => match decode_pc2_input(input) {
            Some(input) => Some(JobHttp::PC2(PC2 { input })),
            None => None,
        },
        JobType::C1 => match decode_c1_input(input) {
            Some(input) => Some(JobHttp::C1(C1 { input })),
            None => None,
        },
        JobType::C2 => match decode_c2_input(input) {
            Some(input) => Some(JobHttp::C2(C2 { input })),
            None => None,
        },
        JobType::PC => match decode_pc1_input(input) {
            Some(input) => Some(JobHttp::PC(PC { input })),
            None => None,
        },
    }
}

/// Reads a tree as the answer to a request for jobs.
pub fn decode_jobs(tree: &Json) -> (response: Option<GetSealingJobsResponse>)
    ensures
        match response {
            Some(r) => tree_jobs(tree@) == Some(r@),
            None => tree_jobs(tree@) is None,
        },
{
    let list = match tree.get("jobs") {
        Some(v) => v,
        None => return None,
    };
    let items = match list.as_array() {
        Some(items) => items,
        None => return None,
    };
    let ghost models = item_models(items@);
    proof {
        lemma_item_models(items@);
    }
    let mut jobs: Vec<JobHttp> = Vec::new();
    let mut i: usize = 0;
    while i < items.len()
        invariant
            i <= items.len(),
            jobs@.len() == i,
            models.len() == items@.len(),
            forall|k: int| 0 <= k < models.len() ==> (#[trigger] models[k]) == items@[k]@,
            forall|k: int| 0 <= k < i ==> tree_job(#[trigger] models[k]) == Some(jobs@[k]@),
            tree@.member("jobs"@) == Some(list@),
            list@.as_array() == Some(models),
        decreases items.len() - i,
    {
        match decode_job(&items[i]) {
            Some(job) => {
                jobs.push(job);
            },
            None => {
                assert(tree_job(models[i as int]) is None);
                return None;
            },
        }
        i = i + 1;
    }
    proof {
        assert(job_models(jobs@) =~= Seq::new(models.len(), |i: int| tree_job(models[i])->0));
    }
    Some(GetSealingJobsResponse { jobs })
}

/// Reads a tree as an output envelope.
pub fn decode_output(tree: &Json) -> (output: Option<JobOutputHttp>)
    ensures
        match output {
            Some(o) => tree_output(tree@) == Some(o@),
            None => tree_output(tree@) is None,
        },
{
    let kind = match read_kind(tree) {
        Some(v) => v,
        None => return None,
    };
    let bytes = match read_bytes(tree, "output") {
        Some(v) => v,
        None => return None,
    };
    Some(JobOutputHttp::of(kind, bytes))
}

/// Reads a tree as the state of a job.
pub fn decode_state(tree: &Json) -> (state: Option<JobState>)
    ensures
        state == tree_state(tree@),
{
    match read_text(tree, "state") {
        Some(name) => JobState::from_name(name),
        None => None,
    }
}

/// Reads a tree as the message of a failed job.
pub fn decode_failure(tree: &Json) -> (message: Option<String>)
    ensures
        match message {
            Some(m) => tree_failure(tree@) == Some(m@),
            None => tree_failure(tree@) is None,
        },
{
    match read_text(tree, "err") {
        Some(text) => Some(text.to_owned()),
        None => None,
    }
}

} // verus!
