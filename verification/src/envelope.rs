//! The envelope: one wire type for the jobs of all kinds and one for their
//! outputs, tagged by the kind, and the way back to the typed job.
//!
//! To ask an envelope for a job of another kind than it holds is answered
//! with `WrongVariant`, for all five kinds alike.

use crate::filecoin::{SectorId, StorageProviderId};
use crate::job::{Job, JobType};
use crate::text::same;
use crate::sealing::{
    C1InputModel, C1Output, C2InputModel, C2Output, PC1InputModel, PC1Output, PC2InputModel,
    PC2Output, PCOutput, SealingJob, C1, C2, PC, PC1, PC2,
};
use vstd::prelude::*;

verus! {

/// An envelope held a job, or an output, of another kind than was asked for.
#[derive(Debug, Clone, Copy, PartialEq, Eq, Structural)]
pub struct WrongVariant {
    pub expected: JobType,
    pub found: JobType,
}

/// A job of any kind, as it travels.
#[derive(Debug, PartialEq, Eq)]
pub enum JobHttp {
    PC1(PC1),
    PC2(PC2),
    C1(C1),
    C2(C2),
    PC(PC),
}

/// What a job envelope holds, as mathematical data.
pub enum JobHttpModel {
    PC1(PC1InputModel),
    PC2(PC2InputModel),
    C1(C1InputModel),
    C2(C2InputModel),
    PC(PC1InputModel),
}

impl JobHttpModel {
    /// The kind of the job inside.
    pub open spec fn kind(self) -> JobType {
        match self {
            JobHttpModel::PC1(_) => JobType::PC1,
            JobHttpModel::PC2(_) => JobType::PC2,
            JobHttpModel::C1(_) => JobType::C1,
            JobHttpModel::C2(_) => JobType::C2,
            JobHttpModel::PC(_) => JobType::PC,
        }
    }
}

impl View for JobHttp {
    type V = JobHttpModel;

    open spec fn view(&self) -> JobHttpModel {
        match self {
            JobHttp::PC1(job) => JobHttpModel::PC1(job@),
            JobHttp::PC2(job) => JobHttpModel::PC2(job@),
            JobHttp::C1(job) => JobHttpModel::C1(job@),
            JobHttp::C2(job) => JobHttpModel::C2(job@),
            JobHttp::PC(job) => JobHttpModel::PC(job@),
        }
    }
}

impl JobHttp {
    /// The kind of the job inside.
    pub open spec fn kind(self) -> JobType {
        self@.kind()
    }

    /// The kind of the job inside.
    pub fn job_type(&self) -> (kind: JobType)
        ensures
            kind == self.kind(),
    {
        match self {
            JobHttp::PC1(_) => JobType::PC1,
            JobHttp::PC2(_) => JobType::PC2,
            JobHttp::C1(_) => JobType::C1,
            JobHttp::C2(_) => JobType::C2,
            JobHttp::PC(_) => JobType::PC,
        }
    }
}

/// The output of a job of any kind, as it travels.
#[derive(Debug, PartialEq, Eq)]
pub enum JobOutputHttp {
    PC1(PC1Output),
    PC2(PC2Output),
    C1(C1Output),
    C2(C2Output),
    PC(PCOutput),
}

/// What an output envelope holds, as mathematical data.
pub struct JobOutputModel {
    pub kind: JobType,
    pub bytes: Seq<u8>,
}

impl View for JobOutputHttp {
    type V = JobOutputModel;

    open spec fn view(&self) -> JobOutputModel {
        match self {
            JobOutputHttp::PC1(output) => JobOutputModel { kind: JobType::PC1, bytes: output@ },
            JobOutputHttp::PC2(output) => JobOutputModel { kind: JobType::PC2, bytes: output@ },
            JobOutputHttp::C1(output) => JobOutputModel { kind: JobType::C1, bytes: output@ },
            JobOutputHttp::C2(output) => JobOutputModel { kind: JobType::C2, bytes: output@ },
            JobOutputHttp::PC(output) => JobOutputModel { kind: JobType::PC, bytes: output@ },
        }
    }
}

impl JobOutputHttp {
    /// The kind of the job that made the output.
    pub open spec fn kind(self) -> JobType {
        self@.kind
    }

    /// The kind of the job that made the output.
    pub fn job_type(&self) -> (kind: JobType)
        ensures
            kind == self.kind(),
    {
        match self {
            JobOutputHttp::PC1(_) => JobType::PC1,
            JobOutputHttp::PC2(_) => JobType::PC2,
            JobOutputHttp::C1(_) => JobType::C1,
            JobOutputHttp::C2(_) => JobType::C2,
            JobOutputHttp::PC(_) => JobType::PC,
        }
    }

    /// The envelope of the given kind around the given bytes.
    pub fn of(kind: JobType, bytes: Vec<u8>) -> (envelope: JobOutputHttp)
        ensures
            envelope@ == (JobOutputModel { kind, bytes: bytes@ }),
    {
        match kind {
            JobType::PC1 => JobOutputHttp::PC1(PC1Output(bytes)),
            JobType::PC2 => JobOutputHttp::PC2(PC2Output(bytes)),
            JobType::C1 => JobOutputHttp::C1(C1Output(bytes)),
            JobType::C2 => JobOutputHttp::C2(C2Output(bytes)),
            JobType::PC => JobOutputHttp::PC(PCOutput(bytes)),
        }
    }

    /// The bytes of the output inside.
    pub fn as_ref(&self) -> (bytes: &[u8])
        ensures
            bytes@ == self@.bytes,
    {
        match self {
            JobOutputHttp::PC1(output) => output.as_ref(),
            JobOutputHttp::PC2(output) => output.as_ref(),
            JobOutputHttp::C1(output) => output.as_ref(),
            JobOutputHttp::C2(output) => output.as_ref(),
            JobOutputHttp::PC(output) => output.as_ref(),
        }
    }
}

/// A sealing job that can travel: it goes into an envelope and is taken out
/// of one again, and so does its output.
pub trait Enveloped: SealingJob {
    /// The envelope around a job.
    spec fn erased(self) -> JobHttp;

    /// The job in an envelope, where it is of this kind.
    spec fn recovered(envelope: JobHttp) -> Result<Self, WrongVariant>;

    /// The envelope around an output.
    spec fn erased_output(output: Self::Output) -> JobOutputHttp;

    /// The output in an envelope, where it is of this kind.
    spec fn recovered_output(envelope: JobOutputHttp) -> Result<Self::Output, WrongVariant>;

    /// Puts the job into an envelope.
    fn erase(self) -> (envelope: JobHttp)
        ensures
            envelope == self.erased(),
    ;

    /// Takes the job out of an envelope.
    fn recover(envelope: JobHttp) -> (job: Result<Self, WrongVariant>)
        ensures
            job == Self::recovered(envelope),
    ;

    /// Puts an output into an envelope.
    fn erase_output(output: Self::Output) -> (envelope: JobOutputHttp)
        ensures
            envelope == Self::erased_output(output),
    ;

    /// Takes an output out of an envelope.
    fn recover_output(envelope: JobOutputHttp) -> (output: Result<Self::Output, WrongVariant>)
        ensures
            output == Self::recovered_output(envelope),
    ;

    /// An envelope has the kind of the job put into it and gives that job
    /// back.
    proof fn lemma_job_round_trip(job: Self)
        ensures
            job.erased().kind() == Self::kind(),
            Self::recovered(job.erased()) == Ok::<Self, WrongVariant>(job),
    ;

    /// An envelope gives up its job exactly where the kind is the one asked
    /// for, and says which kinds met where it is not.
    proof fn lemma_recovered(envelope: JobHttp)
        ensures
            Self::recovered(envelope) is Ok <==> envelope.kind() == Self::kind(),
            Self::recovered(envelope) matches Ok(job) ==> job.erased() == envelope,
            Self::recovered(envelope) matches Err(e) ==> e == (WrongVariant {
                expected: Self::kind(),
                found: envelope.kind(),
            }),
    ;

    /// An output envelope has the kind of the job and gives the output back.
    proof fn lemma_output_round_trip(output: Self::Output)
        ensures
            Self::erased_output(output).kind() == Self::kind(),
            Self::recovered_output(Self::erased_output(output)) == Ok::<
                Self::Output,
                WrongVariant,
            >(output),
    ;

    /// An output envelope gives up its output exactly where the kind is the
    /// one asked for, and says which kinds met where it is not.
    proof fn lemma_recovered_output(envelope: JobOutputHttp)
        ensures
            Self::recovered_output(envelope) is Ok <==> envelope.kind() == Self::kind(),
            Self::recovered_output(envelope) matches Ok(output) ==> Self::erased_output(output)
                == envelope,
            Self::recovered_output(envelope) matches Err(e) ==> e == (WrongVariant {
                expected: Self::kind(),
                found: envelope.kind(),
            }),
    ;
}

impl From<PC1> for JobHttp {
    fn from(job: PC1) -> (envelope: JobHttp)
        ensures
            envelope == JobHttp::PC1(job),
    {
        JobHttp::PC1(job)
    }
}

impl vstd::std_specs::convert::FromSpecImpl<PC1> for JobHttp {
    open spec fn obeys_from_spec() -> bool {
        true
    }

    open spec fn from_spec(job: PC1) -> JobHttp {
        JobHttp::PC1(job)
    }
}

impl From<PC1Output> for JobOutputHttp {
    fn from(output: PC1Output) -> (envelope: JobOutputHttp)
        ensures
            envelope == JobOutputHttp::PC1(output),
    {
        JobOutputHttp::PC1(output)
    }
}

impl vstd::std_specs::convert::FromSpecImpl<PC1Output> for JobOutputHttp {
    open spec fn obeys_from_spec() -> bool {
        true
    }

    open spec fn from_spec(output: PC1Output) -> JobOutputHttp {
        JobOutputHttp::PC1(output)
    }
}

impl Enveloped for PC1 {
    open spec fn erased(self) -> JobHttp {
        JobHttp::PC1(self)
    }

    open spec fn recovered(envelope: JobHttp) -> Result<PC1, WrongVariant> {
        match envelope {
            JobHttp::PC1(job) => Ok(job),
            _ => Err(WrongVariant { expected: JobType::PC1, found: envelope.kind() }),
        }
    }

    open spec fn erased_output(output: PC1Output) -> JobOutputHttp {
        JobOutputHttp::PC1(output)
    }

    open spec fn recovered_output(envelope: JobOutputHttp) -> Result<PC1Output, WrongVariant> {
        match envelope {
            JobOutputHttp::PC1(output) => Ok(output),
            _ => Err(WrongVariant { expected: JobType::PC1, found: envelope.kind() }),
        }
    }

    fn erase(self) -> (envelope: JobHttp) {
        JobHttp::PC1(self)
    }

    fn recover(envelope: JobHttp) -> (job: Result<PC1, WrongVariant>) {
        let found = envelope.job_type();
        match envelope {
            JobHttp::PC1(job) => Ok(job),
            _ => Err(WrongVariant { expected: JobType::PC1, found }),
        }
    }

    fn erase_output(output: PC1Output) -> (envelope: JobOutputHttp) {
        JobOutputHttp::PC1(output)
    }

    fn recover_output(envelope: JobOutputHttp) -> (output: Result<PC1Output, WrongVariant>) {
        let found = envelope.job_type();
        match envelope {
            JobOutputHttp::PC1(output) => Ok(output),
            _ => Err(WrongVariant { expected: JobType::PC1, found }),
        }
    }

    proof fn lemma_job_round_trip(job: PC1) {
    }

    proof fn lemma_recovered(envelope: JobHttp) {
    }

    proof fn lemma_output_round_trip(output: PC1Output) {
    }

    proof fn lemma_recovered_output(envelope: JobOutputHttp) {
    }
}

impl From<PC2> for JobHttp {
    fn from(job: PC2) -> (envelope: JobHttp)
        ensures
            envelope == JobHttp::PC2(job),
    {
        JobHttp::PC2(job)
    }
}

impl vstd::std_specs::convert::FromSpecImpl<PC2> for JobHttp {
    open spec fn obeys_from_spec() -> bool {
        true
    }

    open spec fn from_spec(job: PC2) -> JobHttp {
        JobHttp::PC2(job)
    }
}

impl From<PC2Output> for JobOutputHttp {
    fn from(output: PC2Output) -> (envelope: JobOutputHttp)
        ensures
            envelope == JobOutputHttp::PC2(output),
    {
        JobOutputHttp::PC2(output)
    }
}

impl vstd::std_specs::convert::FromSpecImpl<PC2Output> for JobOutputHttp {
    open spec fn obeys_from_spec() -> bool {
        true
    }

    open spec fn from_spec(output: PC2Output) -> JobOutputHttp {
        JobOutputHttp::PC2(output)
    }
}

impl Enveloped for PC2 {
    open spec fn erased(self) -> JobHttp {
        JobHttp::PC2(self)
    }

    open spec fn recovered(envelope: JobHttp) -> Result<PC2, WrongVariant> {
        match envelope {
            JobHttp::PC2(job) => Ok(job),
            _ => Err(WrongVariant { expected: JobType::PC2, found: envelope.kind() }),
        }
    }

    open spec fn erased_output(output: PC2Output) -> JobOutputHttp {
        JobOutputHttp::PC2(output)
    }

    open spec fn recovered_output(envelope: JobOutputHttp) -> Result<PC2Output, WrongVariant> {
        match envelope {
            JobOutputHttp::PC2(output) => Ok(output),
            _ => Err(WrongVariant { expected: JobType::PC2, found: envelope.kind() }),
        }
    }

    fn erase(self) -> (envelope: JobHttp) {
        JobHttp::PC2(self)
    }

    fn recover(envelope: JobHttp) -> (job: Result<PC2, WrongVariant>) {
        let found = envelope.job_type();
        match envelope {
            JobHttp::PC2(job) => Ok(job),
            _ => Err(WrongVariant { expected: JobType::PC2, found }),
        }
    }

    fn erase_output(output: PC2Output) -> (envelope: JobOutputHttp) {
        JobOutputHttp::PC2(output)
    }

    fn recover_output(envelope: JobOutputHttp) -> (output: Result<PC2Output, WrongVariant>) {
        let found = envelope.job_type();
        match envelope {
            JobOutputHttp::PC2(output) => Ok(output),
            _ => Err(WrongVariant { expected: JobType::PC2, found }),
        }
    }

    proof fn lemma_job_round_trip(job: PC2) {
    }

    proof fn lemma_recovered(envelope: JobHttp) {
    }

    proof fn lemma_output_round_trip(output: PC2Output) {
    }

    proof fn lemma_recovered_output(envelope: JobOutputHttp) {
    }
}

impl From<C1> for JobHttp {
    fn from(job: C1) -> (envelope: JobHttp)
        ensures
            envelope == JobHttp::C1(job),
    {
        JobHttp::C1(job)
    }
}

impl vstd::std_specs::convert::FromSpecImpl<C1> for JobHttp {
    open spec fn obeys_from_spec() -> bool {
        true
    }

    open spec fn from_spec(job: C1) -> JobHttp {
        JobHttp::C1(job)
    }
}

impl From<C1Output> for JobOutputHttp {
    fn from(output: C1Output) -> (envelope: JobOutputHttp)
        ensures
            envelope == JobOutputHttp::C1(output),
    {
        JobOutputHttp::C1(output)
    }
}

impl vstd::std_specs::convert::FromSpecImpl<C1Output> for JobOutputHttp {
    open spec fn obeys_from_spec() -> bool {
        true
    }

    open spec fn from_spec(output: C1Output) -> JobOutputHttp {
        JobOutputHttp::C1(output)
    }
}

impl Enveloped for C1 {
    open spec fn erased(self) -> JobHttp {
        JobHttp::C1(self)
    }

    open spec fn recovered(envelope: JobHttp) -> Result<C1, WrongVariant> {
        match envelope {
            JobHttp::C1(job) => Ok(job),
            _ => Err(WrongVariant { expected: JobType::C1, found: envelope.kind() }),
        }
    }

    open spec fn erased_output(output: C1Output) -> JobOutputHttp {
        JobOutputHttp::C1(output)
    }

    open spec fn recovered_output(envelope: JobOutputHttp) -> Result<C1Output, WrongVariant> {
        match envelope {
            JobOutputHttp::C1(output) => Ok(output),
            _ => Err(WrongVariant { expected: JobType::C1, found: envelope.kind() }),
        }
    }

    fn erase(self) -> (envelope: JobHttp) {
        JobHttp::C1(self)
    }

    fn recover(envelope: JobHttp) -> (job: Result<C1, WrongVariant>) {
        let found = envelope.job_type();
        match envelope {
            JobHttp::C1(job) => Ok(job),
            _ => Err(WrongVariant { expected: JobType::C1, found }),
        }
    }

    fn erase_output(output: C1Output) -> (envelope: JobOutputHttp) {
        JobOutputHttp::C1(output)
    }

    fn recover_output(envelope: JobOutputHttp) -> (output: Result<C1Output, WrongVariant>) {
        let found = envelope.job_type();
        match envelope {
            JobOutputHttp::C1(output) => Ok(output),
            _ => Err(WrongVariant { expected: JobType::C1, found }),
        }
    }

    proof fn lemma_job_round_trip(job: C1) {
    }

    proof fn lemma_recovered(envelope: JobHttp) {
    }

    proof fn lemma_output_round_trip(output: C1Output) {
    }

    proof fn lemma_recovered_output(envelope: JobOutputHttp) {
    }
}

impl From<C2> for JobHttp {
    fn from(job: C2) -> (envelope: JobHttp)
        ensures
            envelope == JobHttp::C2(job),
    {
        JobHttp::C2(job)
    }
}

impl vstd::std_specs::convert::FromSpecImpl<C2> for JobHttp {
    open spec fn obeys_from_spec() -> bool {
        true
    }

    open spec fn from_spec(job: C2) -> JobHttp {
        JobHttp::C2(job)
    }
}

impl From<C2Output> for JobOutputHttp {
    fn from(output: C2Output) -> (envelope: JobOutputHttp)
        ensures
            envelope == JobOutputHttp::C2(output),
    {
        JobOutputHttp::C2(output)
    }
}

impl vstd::std_specs::convert::FromSpecImpl<C2Output> for JobOutputHttp {
    open spec fn obeys_from_spec() -> bool {
        true
    }

    open spec fn from_spec(output: C2Output) -> JobOutputHttp {
        JobOutputHttp::C2(output)
    }
}

impl Enveloped for C2 {
    open spec fn erased(self) -> JobHttp {
        JobHttp::C2(self)
    }

    open spec fn recovered(envelope: JobHttp) -> Result<C2, WrongVariant> {
        match envelope {
            JobHttp::C2(job) => Ok(job),
            _ => Err(WrongVariant { expected: JobType::C2, found: envelope.kind() }),
        }
    }

    open spec fn erased_output(output: C2Output) -> JobOutputHttp {
        JobOutputHttp::C2(output)
    }

    open spec fn recovered_output(envelope: JobOutputHttp) -> Result<C2Output, WrongVariant> {
        match envelope {
            JobOutputHttp::C2(output) => Ok(output),
            _ => Err(WrongVariant { expected: JobType::C2, found: envelope.kind() }),
        }
    }

    fn erase(self) -> (envelope: JobHttp) {
        JobHttp::C2(self)
    }

    fn recover(envelope: JobHttp) -> (job: Result<C2, WrongVariant>) {
        let found = envelope.job_type();
        match envelope {
            JobHttp::C2(job) => Ok(job),
            _ => Err(WrongVariant { expected: JobType::C2, found }),
        }
    }

    fn erase_output(output: C2Output) -> (envelope: JobOutputHttp) {
        JobOutputHttp::C2(output)
    }

    fn recover_output(envelope: JobOutputHttp) -> (output: Result<C2Output, WrongVariant>) {
        let found = envelope.job_type();
        match envelope {
            JobOutputHttp::C2(output) => Ok(output),
            _ => Err(WrongVariant { expected: JobType::C2, found }),
        }
    }

    proof fn lemma_job_round_trip(job: C2) {
    }

    proof fn lemma_recovered(envelope: JobHttp) {
    }

    proof fn lemma_output_round_trip(output: C2Output) {
    }

    proof fn lemma_recovered_output(envelope: JobOutputHttp) {
    }
}

impl From<PC> for JobHttp {
    fn from(job: PC) -> (envelope: JobHttp)
        ensures
            envelope == JobHttp::PC(job),
    {
        JobHttp::PC(job)
    }
}

impl vstd::std_specs::convert::FromSpecImpl<PC> for JobHttp {
    open spec fn obeys_from_spec() -> bool {
        true
    }

    open spec fn from_spec(job: PC) -> JobHttp {
        JobHttp::PC(job)
    }
}

impl From<PCOutput> for JobOutputHttp {
    fn from(output: PCOutput) -> (envelope: JobOutputHttp)
        ensures
            envelope == JobOutputHttp::PC(output),
    {
        JobOutputHttp::PC(output)
    }
}

impl vstd::std_specs::convert::FromSpecImpl<PCOutput> for JobOutputHttp {
    open spec fn obeys_from_spec() -> bool {
        true
    }

    open spec fn from_spec(output: PCOutput) -> JobOutputHttp {
        JobOutputHttp::PC(output)
    }
}

impl Enveloped for PC {
    open spec fn erased(self) -> JobHttp {
        JobHttp::PC(self)
    }

    open spec fn recovered(envelope: JobHttp) -> Result<PC, WrongVariant> {
        match envelope {
            JobHttp::PC(job) => Ok(job),
            _ => Err(WrongVariant { expected: JobType::PC, found: envelope.kind() }),
        }
    }

    open spec fn erased_output(output: PCOutput) -> JobOutputHttp {
        JobOutputHttp::PC(output)
    }

    open spec fn recovered_output(envelope: JobOutputHttp) -> Result<PCOutput, WrongVariant> {
        match envelope {
            JobOutputHttp::PC(output) => Ok(output),
            _ => Err(WrongVariant { expected: JobType::PC, found: envelope.kind() }),
        }
    }

    fn erase(self) -> (envelope: JobHttp) {
        JobHttp::PC(self)
    }

    fn recover(envelope: JobHttp) -> (job: Result<PC, WrongVariant>) {
        let found = envelope.job_type();
        match envelope {
            JobHttp::PC(job) => Ok(job),
            _ => Err(WrongVariant { expected: JobType::PC, found }),
        }
    }

    fn erase_output(output: PCOutput) -> (envelope: JobOutputHttp) {
        JobOutputHttp::PC(output)
    }

    fn recover_output(envelope: JobOutputHttp) -> (output: Result<PCOutput, WrongVariant>) {
        let found = envelope.job_type();
        match envelope {
            JobOutputHttp::PC(output) => Ok(output),
            _ => Err(WrongVariant { expected: JobType::PC, found }),
        }
    }

    proof fn lemma_job_round_trip(job: PC) {
    }

    proof fn lemma_recovered(envelope: JobHttp) {
    }

    proof fn lemma_output_round_trip(output: PCOutput) {
    }

    proof fn lemma_recovered_output(envelope: JobOutputHttp) {
    }
}

/// What became of a job: its output, or the message of its failure.
pub struct JobOutput<SealingJobT: SealingJob>(pub Result<SealingJobT::Output, String>);

/// The views of the jobs of a list, in order.
pub open spec fn job_models(jobs: Seq<JobHttp>) -> Seq<JobHttpModel> {
    Seq::new(jobs.len(), |i: int| jobs[i]@)
}

/// The answer to a request for jobs.
#[derive(Debug, PartialEq, Eq)]
pub struct GetSealingJobsResponse {
    pub jobs: Vec<JobHttp>,
}

impl View for GetSealingJobsResponse {
    type V = Seq<JobHttpModel>;

    open spec fn view(&self) -> Seq<JobHttpModel> {
        job_models(self.jobs@)
    }
}

/// The body that submits an output: the key of the job and the output
/// envelope.
#[derive(Debug, PartialEq, Eq)]
pub struct SubmitSealingJobOutput {
    pub storage_provider_id: StorageProviderId,
    pub sector_id: SectorId,
    pub job: JobOutputHttp,
}

/// What a body that submits an output holds, as mathematical data.
pub struct SubmitModel {
    pub storage_provider_id: StorageProviderId,
    pub sector_id: SectorId,
    pub job: JobOutputModel,
}

impl View for SubmitSealingJobOutput {
    type V = SubmitModel;

    open spec fn view(&self) -> SubmitModel {
        SubmitModel {
            storage_provider_id: self.storage_provider_id,
            sector_id: self.sector_id,
            job: self.job@,
        }
    }
}

/// The body that reports a failure: the key of the job, its kind and the
/// message.
#[derive(Debug, PartialEq, Eq)]
pub struct FailJob {
    pub storage_provider_id: StorageProviderId,
    pub sector_id: SectorId,
    pub job_type: JobType,
    pub error: String,
}

/// What a body that reports a failure holds, as mathematical data.
pub struct FailJobModel {
    pub storage_provider_id: StorageProviderId,
    pub sector_id: SectorId,
    pub job_type: JobType,
    pub error: Seq<char>,
}

impl View for FailJob {
    type V = FailJobModel;

    open spec fn view(&self) -> FailJobModel {
        FailJobModel {
            storage_provider_id: self.storage_provider_id,
            sector_id: self.sector_id,
            job_type: self.job_type,
            error: self.error@,
        }
    }
}

/// Where a job stands, as the service sees it. `Done` and `Failed` are
/// final.
#[derive(Debug, Clone, Copy, PartialEq, Eq, Structural)]
pub enum JobState {
    Pending,
    Done,
    Failed,
}

impl JobState {
    /// The display name of a state.
    pub open spec fn name(self) -> Seq<char> {
        match self {
            JobState::Pending => "Pending"@,
            JobState::Done => "Done"@,
            JobState::Failed => "Failed"@,
        }
    }

    /// The state with the given display name, if there is one.
    pub open spec fn of_name(name: Seq<char>) -> Option<JobState> {
        if name == "Pending"@ {
            Some(JobState::Pending)
        } else if name == "Done"@ {
            Some(JobState::Done)
        } else if name == "Failed"@ {
            Some(JobState::Failed)
        } else {
            None
        }
    }

    /// Whether no other state can follow.
    pub open spec fn terminal(self) -> bool {
        self != JobState::Pending
    }

    /// The display name: "Pending", "Done" or "Failed".
    pub fn to_string(&self) -> (name: String)
        ensures
            name@ == self.name(),
    {
        match self {
            JobState::Pending => "Pending".to_owned(),
            JobState::Done => "Done".to_owned(),
            JobState::Failed => "Failed".to_owned(),
        }
    }

    /// The state that a display name stands for.
    pub fn from_name(name: &str) -> (state: Option<JobState>)
        ensures
            state == JobState::of_name(name@),
    {
        if same(name, "Pending") {
            Some(JobState::Pending)
        } else if same(name, "Done") {
            Some(JobState::Done)
        } else if same(name, "Failed") {
            Some(JobState::Failed)
        } else {
            None
        }
    }

    /// Whether no other state can follow.
    pub fn is_terminal(&self) -> (terminal: bool)
        ensures
            terminal == self.terminal(),
    {
        match self {
            JobState::Pending => false,
            JobState::Done => true,
            JobState::Failed => true,
        }
    }
}

} // verus!
