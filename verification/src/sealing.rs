//! The five kinds of sealing job, each with its input and its output.
//!
//! The pipeline runs PC1, PC2, C1, C2 in that order; PC does the work of PC1
//! and PC2 in one job. Every input carries the provider, the sector and the
//! proof variant, and what the stage before it produced.

use crate::filecoin::{
    ChainEpoch, PieceInfo, PieceInfoModel, RegisteredSealProof, SectorId, StorageProviderId, Ticket,
};
use crate::job::{Job, JobType};
use vstd::prelude::*;

verus! {

/// A sealing job: a job that belongs to one sector of one provider.
pub trait SealingJob: Job {
    /// The sector that the job works on.
    spec fn sector(&self) -> SectorId;

    /// The provider that owns the sector.
    spec fn provider(&self) -> StorageProviderId;

    /// The proof variant of the sector.
    spec fn seal_proof(&self) -> RegisteredSealProof;

    fn sector_id(&self) -> (id: SectorId)
        ensures
            id == self.sector(),
    ;

    fn storage_provider_id(&self) -> (id: StorageProviderId)
        ensures
            id == self.provider(),
    ;

    fn registered_proof(&self) -> (kind: RegisteredSealProof)
        ensures
            kind == self.seal_proof(),
    ;
}

/// The views of the pieces of a list, in order.
pub open spec fn piece_models(pieces: Seq<PieceInfo>) -> Seq<PieceInfoModel> {
    Seq::new(pieces.len(), |i: int| pieces[i]@)
}

/// What the first pre-commit stage starts from.
#[derive(Debug, Clone, PartialEq, Eq)]
pub struct PC1Input {
    pub registered_proof: RegisteredSealProof,
    pub storage_provider_id: StorageProviderId,
    pub sector_id: SectorId,
    pub ticket: Ticket,
    pub ticket_epoch: ChainEpoch,
}

/// What a `PC1Input` holds, as mathematical data.
pub struct PC1InputModel {
    pub registered_proof: RegisteredSealProof,
    pub storage_provider_id: StorageProviderId,
    pub sector_id: SectorId,
    pub ticket: Seq<u8>,
    pub ticket_epoch: ChainEpoch,
}

impl View for PC1Input {
    type V = PC1InputModel;

    open spec fn view(&self) -> PC1InputModel {
        PC1InputModel {
            registered_proof: self.registered_proof,
            storage_provider_id: self.storage_provider_id,
            sector_id: self.sector_id,
            ticket: self.ticket.0@,
            ticket_epoch: self.ticket_epoch,
        }
    }
}

/// What a PC1 job produces: opaque bytes.
#[derive(Debug, Clone, PartialEq, Eq)]
pub struct PC1Output(pub Vec<u8>);

impl View for PC1Output {
    type V = Seq<u8>;

    open spec fn view(&self) -> Seq<u8> {
        self.0@
    }
}

impl PC1Output {
    /// The bytes of the output.
    pub fn as_ref(&self) -> (bytes: &[u8])
        ensures
            bytes@ == self@,
    {
        self.0.as_slice()
    }
}

impl From<Vec<u8>> for PC1Output {
    fn from(value: Vec<u8>) -> (output: PC1Output)
        ensures
            output.0 == value,
    {
        PC1Output(value)
    }
}

impl vstd::std_specs::convert::FromSpecImpl<Vec<u8>> for PC1Output {
    open spec fn obeys_from_spec() -> bool {
        true
    }

    open spec fn from_spec(value: Vec<u8>) -> PC1Output {
        PC1Output(value)
    }
}

/// First pre-commit stage.
#[derive(Debug, Clone, PartialEq, Eq)]
pub struct PC1 {
    pub input: PC1Input,
}

impl View for PC1 {
    type V = PC1InputModel;

    open spec fn view(&self) -> PC1InputModel {
        self.input@
    }
}

impl Job for PC1 {
    type Input = PC1Input;

    type Output = PC1Output;

    open spec fn kind() -> JobType {
        JobType::PC1
    }

    open spec fn input(self) -> PC1Input {
        self.input
    }

    fn job_type() -> (kind: JobType) {
        JobType::PC1
    }

    fn into_input(self) -> (input: PC1Input) {
        self.input
    }
}

impl SealingJob for PC1 {
    open spec fn sector(&self) -> SectorId {
        self.input.sector_id
    }

    open spec fn provider(&self) -> StorageProviderId {
        self.input.storage_provider_id
    }

    open spec fn seal_proof(&self) -> RegisteredSealProof {
        self.input.registered_proof
    }

    fn sector_id(&self) -> (id: SectorId) {
        self.input.sector_id
    }

    fn storage_provider_id(&self) -> (id: StorageProviderId) {
        self.input.storage_provider_id
    }

    fn registered_proof(&self) -> (kind: RegisteredSealProof) {
        self.input.registered_proof
    }
}

/// What a PC2 job produces: opaque bytes.
#[derive(Debug, Clone, PartialEq, Eq)]
pub struct PC2Output(pub Vec<u8>);

impl View for PC2Output {
    type V = Seq<u8>;

    open spec fn view(&self) -> Seq<u8> {
        self.0@
    }
}

impl PC2Output {
    /// The bytes of the output.
    pub fn as_ref(&self) -> (bytes: &[u8])
        ensures
            bytes@ == self@,
    {
        self.0.as_slice()
    }
}

impl From<Vec<u8>> for PC2Output {
    fn from(value: Vec<u8>) -> (output: PC2Output)
        ensures
            output.0 == value,
    {
        PC2Output(value)
    }
}

impl vstd::std_specs::convert::FromSpecImpl<Vec<u8>> for PC2Output {
    open spec fn obeys_from_spec() -> bool {
        true
    }

    open spec fn from_spec(value: Vec<u8>) -> PC2Output {
        PC2Output(value)
    }
}

/// What the second pre-commit stage starts from: the output of the first.
#[derive(Debug, Clone, PartialEq, Eq)]
pub struct PC2Input {
    pub pc1_output: PC1Output,
    pub sector_id: SectorId,
    pub storage_provider_id: StorageProviderId,
    pub registered_proof: RegisteredSealProof,
}

/// What a `PC2Input` holds, as mathematical data.
pub struct PC2InputModel {
    pub pc1_output: Seq<u8>,
    pub sector_id: SectorId,
    pub storage_provider_id: StorageProviderId,
    pub registered_proof: RegisteredSealProof,
}

impl View for PC2Input {
    type V = PC2InputModel;

    open spec fn view(&self) -> PC2InputModel {
        PC2InputModel {
            pc1_output: self.pc1_output@,
            sector_id: self.sector_id,
            storage_provider_id: self.storage_provider_id,
            registered_proof: self.registered_proof,
        }
    }
}

/// Second pre-commit stage.
#[derive(Debug, Clone, PartialEq, Eq)]
pub struct PC2 {
    pub input: PC2Input,
}

impl View for PC2 {
    type V = PC2InputModel;

    open spec fn view(&self) -> PC2InputModel {
        self.input@
    }
}

impl Job for PC2 {
    type Input = PC2Input;

    type Output = PC2Output;

    open spec fn kind() -> JobType {
        JobType::PC2
    }

    open spec fn input(self) -> PC2Input {
        self.input
    }

    fn job_type() -> (kind: JobType) {
        JobType::PC2
    }

    fn into_input(self) -> (input: PC2Input) {
        self.input
    }
}

impl SealingJob for PC2 {
    open spec fn sector(&self) -> SectorId {
        self.input.sector_id
    }

    open spec fn provider(&self) -> StorageProviderId {
        self.input.storage_provider_id
    }

    open spec fn seal_proof(&self) -> RegisteredSealProof {
        self.input.registered_proof
    }

    fn sector_id(&self) -> (id: SectorId) {
        self.input.sector_id
    }

    fn storage_provider_id(&self) -> (id: StorageProviderId) {
        self.input.storage_provider_id
    }

    fn registered_proof(&self) -> (kind: RegisteredSealProof) {
        self.input.registered_proof
    }
}

/// What a PC job produces: opaque bytes.
#[derive(Debug, Clone, PartialEq, Eq)]
pub struct PCOutput(pub Vec<u8>);

impl View for PCOutput {
    type V = Seq<u8>;

    open spec fn view(&self) -> Seq<u8> {
        self.0@
    }
}

impl PCOutput {
    /// The bytes of the output.
    pub fn as_ref(&self) -> (bytes: &[u8])
        ensures
            bytes@ == self@,
    {
        self.0.as_slice()
    }
}

impl From<Vec<u8>> for PCOutput {
    fn from(value: Vec<u8>) -> (output: PCOutput)
        ensures
            output.0 == value,
    {
        PCOutput(value)
    }
}

impl vstd::std_specs::convert::FromSpecImpl<Vec<u8>> for PCOutput {
    open spec fn obeys_from_spec() -> bool {
        true
    }

    open spec fn from_spec(value: Vec<u8>) -> PCOutput {
        PCOutput(value)
    }
}

/// Both pre-commit stages in one job.
#[derive(Debug, Clone, PartialEq, Eq)]
pub struct PC {
    pub input: PC1Input,
}

impl View for PC {
    type V = PC1InputModel;

    open spec fn view(&self) -> PC1InputModel {
        self.input@
    }
}

impl Job for PC {
    type Input = PC1Input;

    type Output = PCOutput;

    open spec fn kind() -> JobType {
        JobType::PC
    }

    open spec fn input(self) -> PC1Input {
        self.input
    }

    fn job_type() -> (kind: JobType) {
        JobType::PC
    }

    fn into_input(self) -> (input: PC1Input) {
        self.input
    }
}

impl SealingJob for PC {
    open spec fn sector(&self) -> SectorId {
        self.input.sector_id
    }

    open spec fn provider(&self) -> StorageProviderId {
        self.input.storage_provider_id
    }

    open spec fn seal_proof(&self) -> RegisteredSealProof {
        self.input.registered_proof
    }

    fn sector_id(&self) -> (id: SectorId) {
        self.input.sector_id
    }

    fn storage_provider_id(&self) -> (id: StorageProviderId) {
        self.input.storage_provider_id
    }

    fn registered_proof(&self) -> (kind: RegisteredSealProof) {
        self.input.registered_proof
    }
}

/// What a C1 job produces: opaque bytes.
#[derive(Debug, Clone, PartialEq, Eq)]
pub struct C1Output(pub Vec<u8>);

impl View for C1Output {
    type V = Seq<u8>;

    open spec fn view(&self) -> Seq<u8> {
        self.0@
    }
}

impl C1Output {
    /// The bytes of the output.
    pub fn as_ref(&self) -> (bytes: &[u8])
        ensures
            bytes@ == self@,
    {
        self.0.as_slice()
    }
}

impl From<Vec<u8>> for C1Output {
    fn from(value: Vec<u8>) -> (output: C1Output)
        ensures
            output.0 == value,
    {
        C1Output(value)
    }
}

impl vstd::std_specs::convert::FromSpecImpl<Vec<u8>> for C1Output {
    open spec fn obeys_from_spec() -> bool {
        true
    }

    open spec fn from_spec(value: Vec<u8>) -> C1Output {
        C1Output(value)
    }
}

/// What the first commit stage starts from: the output of pre-commit, the ticket,
/// the seed and the pieces.
#[derive(Debug, Clone, PartialEq, Eq)]
pub struct C1Input {
    pub pc2_output: PC2Output,
    pub storage_provider_id: StorageProviderId,
    pub sector_id: SectorId,
    pub ticket: Ticket,
    pub seed: Ticket,
    pub piece_infos: Vec<PieceInfo>,
    pub registered_proof: RegisteredSealProof,
}

/// What a `C1Input` holds, as mathematical data.
pub struct C1InputModel {
    pub pc2_output: Seq<u8>,
    pub storage_provider_id: StorageProviderId,
    pub sector_id: SectorId,
    pub ticket: Seq<u8>,
    pub seed: Seq<u8>,
    pub piece_infos: Seq<PieceInfoModel>,
    pub registered_proof: RegisteredSealProof,
}

impl View for C1Input {
    type V = C1InputModel;

    open spec fn view(&self) -> C1InputModel {
        C1InputModel {
            pc2_output: self.pc2_output@,
            storage_provider_id: self.storage_provider_id,
            sector_id: self.sector_id,
            ticket: self.ticket.0@,
            seed: self.seed.0@,
            piece_infos: piece_models(self.piece_infos@),
            registered_proof: self.registered_proof,
        }
    }
}

/// First commit stage.
#[derive(Debug, Clone, PartialEq, Eq)]
pub struct C1 {
    pub input: C1Input,
}

impl View for C1 {
    type V = C1InputModel;

    open spec fn view(&self) -> C1InputModel {
        self.input@
    }
}

impl Job for C1 {
    type Input = C1Input;

    type Output = C1Output;

    open spec fn kind() -> JobType {
        JobType::C1
    }

    open spec fn input(self) -> C1Input {
        self.input
    }

    fn job_type() -> (kind: JobType) {
        JobType::C1
    }

    fn into_input(self) -> (input: C1Input) {
        self.input
    }
}

impl SealingJob for C1 {
    open spec fn sector(&self) -> SectorId {
        self.input.sector_id
    }

    open spec fn provider(&self) -> StorageProviderId {
        self.input.storage_provider_id
    }

    open spec fn seal_proof(&self) -> RegisteredSealProof {
        self.input.registered_proof
    }

    fn sector_id(&self) -> (id: SectorId) {
        self.input.sector_id
    }

    fn storage_provider_id(&self) -> (id: StorageProviderId) {
        self.input.storage_provider_id
    }

    fn registered_proof(&self) -> (kind: RegisteredSealProof) {
        self.input.registered_proof
    }
}

/// What the second commit stage starts from: the output of the first.
#[derive(Debug, Clone, PartialEq, Eq)]
pub struct C2Input {
    pub c1_output: C1Output,
    pub storage_provider_id: StorageProviderId,
    pub sector_id: SectorId,
    pub registered_proof: RegisteredSealProof,
}

/// What a `C2Input` holds, as mathematical data.
pub struct C2InputModel {
    pub c1_output: Seq<u8>,
    pub storage_provider_id: StorageProviderId,
    pub sector_id: SectorId,
    pub registered_proof: RegisteredSealProof,
}

impl View for C2Input {
    type V = C2InputModel;

    open spec fn view(&self) -> C2InputModel {
        C2InputModel {
            c1_output: self.c1_output@,
            storage_provider_id: self.storage_provider_id,
            sector_id: self.sector_id,
            registered_proof: self.registered_proof,
        }
    }
}

/// What a C2 job produces: opaque bytes.
#[derive(Debug, Clone, PartialEq, Eq)]
pub struct C2Output(pub Vec<u8>);

impl View for C2Output {
    type V = Seq<u8>;

    open spec fn view(&self) -> Seq<u8> {
        self.0@
    }
}

impl C2Output {
    /// The bytes of the output.
    pub fn as_ref(&self) -> (bytes: &[u8])
        ensures
            bytes@ == self@,
    {
        self.0.as_slice()
    }
}

impl From<Vec<u8>> for C2Output {
    fn from(value: Vec<u8>) -> (output: C2Output)
        ensures
            output.0 == value,
    {
        C2Output(value)
    }
}

impl vstd::std_specs::convert::FromSpecImpl<Vec<u8>> for C2Output {
    open spec fn obeys_from_spec() -> bool {
        true
    }

    open spec fn from_spec(value: Vec<u8>) -> C2Output {
        C2Output(value)
    }
}

impl Default for C2Output {
    fn default() -> (output: C2Output)
        ensures
            output@ == Seq::<u8>::empty(),
    {
        C2Output(Vec::new())
    }
}

/// Second commit stage.
#[derive(Debug, Clone, PartialEq, Eq)]
pub struct C2 {
    pub input: C2Input,
}

impl View for C2 {
    type V = C2InputModel;

    open spec fn view(&self) -> C2InputModel {
        self.input@
    }
}

impl Job for C2 {
    type Input = C2Input;

    type Output = C2Output;

    open spec fn kind() -> JobType {
        JobType::C2
    }

    open spec fn input(self) -> C2Input {
        self.input
    }

    fn job_type() -> (kind: JobType) {
        JobType::C2
    }

    fn into_input(self) -> (input: C2Input) {
        self.input
    }
}

impl SealingJob for C2 {
    open spec fn sector(&self) -> SectorId {
        self.input.sector_id
    }

    open spec fn provider(&self) -> StorageProviderId {
        self.input.storage_provider_id
    }

    open spec fn seal_proof(&self) -> RegisteredSealProof {
        self.input.registered_proof
    }

    fn sector_id(&self) -> (id: SectorId) {
        self.input.sector_id
    }

    fn storage_provider_id(&self) -> (id: StorageProviderId) {
        self.input.storage_provider_id
    }

    fn registered_proof(&self) -> (kind: RegisteredSealProof) {
        self.input.registered_proof
    }
}

} // verus!
