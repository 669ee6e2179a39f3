//! The client side of the job-management service: for each operation, the
//! request to send and what the response means.
//!
//! Nothing here touches the network. A caller sends the request that an
//! operation builds and hands the status and the body of the response to the
//! matching `..._outcome` function. Status 200 is success, 204 says that
//! there is nothing, 424 on an output says that the job ran and failed; any
//! other status is an error that carries the body.

use crate::envelope::{
    Enveloped, FailJob, FailJobModel, JobHttpModel, JobOutput, JobState, SubmitModel,
    SubmitSealingJobOutput, WrongVariant,
};
use crate::filecoin::{SectorId, StorageProviderId};
use crate::job::{Job, JobType};
use crate::json::{parse, parsed, print, printed, Json, JsonModel};
use crate::text::{decimal, digits, replace, replaced};
use vstd::string::StringExecFns;
use crate::wire::{
    decode_failure, decode_job, decode_jobs, decode_output, decode_state, encode_fail, encode_job,
    encode_submit, fail_tree, job_tree, lemma_fail_tree_plain, lemma_job_tree_plain,
    lemma_submit_tree_plain, submit_tree, tree_failure, tree_job, tree_jobs, tree_output,
    tree_state,
};
use vstd::prelude::*;

verus! {

pub const ADD_JOBS_URL: &'static str = "/job";

pub const GET_JOBS_URL: &'static str = "/job/:count/:job_type";

pub const GET_ALL_JOBS_URL: &'static str = "/job/all/:storage_provider_id/:job_type";

pub const GET_JOB_INPUT_URI: &'static str = "/job/input/:storage_provider_id/:sector_id/:job_type";

pub const GET_JOB_STATE_URL: &'static str = "/job/state/:storage_provider_id/:sector_id/:job_type";

pub const SUBMIT_OUTPUT_URL: &'static str = "/job/output";

pub const GET_OUTPUT_URL: &'static str = "/job/output/:storage_provider_id/:sector_id/:job_type";

pub const FAIL_JOB_URL: &'static str = "/job/fail";

pub const GENERATE_TICKET_URL: &'static str = "/job/ticket/:storage_provider_id";

pub const GET_SECTOR_PATHS_URL: &'static str = "/sector/paths/:storage_provider_id/:sector_id";

/// The media type that every request declares.
pub const JSON_CONTENT_TYPE: &'static str = "application/json";

/// Success, with a JSON body.
pub const STATUS_OK: u16 = 200;

/// There is nothing to hand out.
pub const STATUS_NO_CONTENT: u16 = 204;

/// The job ran and failed.
pub const STATUS_FAILED_DEPENDENCY: u16 = 424;

/// What can go wrong in an operation, apart from the transport.
#[derive(Debug)]
pub enum Error {
    /// The body is no JSON text; the message says why.
    Json(String),
    /// The body is JSON, but not of the shape that the operation expects.
    Shape,
    /// The body holds a job or an output of another kind than asked for.
    WrongVariant(WrongVariant),
    /// The body holds more jobs than were asked for.
    TooManyJobs { asked: usize, sent: usize },
    /// There is no such job.
    JobNotExist,
    /// The service has not as many jobs as were asked for; the count that
    /// was asked for is kept.
    NotEnoughJobs(usize),
    /// The service refused to take a job, to hand out jobs or to take an
    /// output; its body is kept.
    FetchJobs(String),
    /// An output could not be submitted; the body is kept.
    SubmitOutput(String),
    /// The service refused a query for an output or for an input; its body
    /// is kept.
    FetchOutput(String),
    /// The service refused to note the failure of a job; its body is kept.
    FailJob(String),
    /// The service refused a query for a state; its body is kept.
    GetState(String),
}

/// What an error says, as mathematical data.
pub enum ErrorModel {
    Json,
    Shape,
    WrongVariant(WrongVariant),
    TooManyJobs { asked: usize, sent: usize },
    JobNotExist,
    NotEnoughJobs(usize),
    FetchJobs(Seq<char>),
    SubmitOutput(Seq<char>),
    FetchOutput(Seq<char>),
    FailJob(Seq<char>),
    GetState(Seq<char>),
}

impl View for Error {
    type V = ErrorModel;

    open spec fn view(&self) -> ErrorModel {
        match self {
            Error::Json(_) => ErrorModel::Json,
            Error::Shape => ErrorModel::Shape,
            Error::WrongVariant(w) => ErrorModel::WrongVariant(*w),
            Error::TooManyJobs { asked, sent } => ErrorModel::TooManyJobs {
                asked: *asked,
                sent: *sent,
            },
            Error::JobNotExist => ErrorModel::JobNotExist,
            Error::NotEnoughJobs(n) => ErrorModel::NotEnoughJobs(*n),
            Error::FetchJobs(text) => ErrorModel::FetchJobs(text@),
            Error::SubmitOutput(text) => ErrorModel::SubmitOutput(text@),
            Error::FetchOutput(text) => ErrorModel::FetchOutput(text@),
            Error::FailJob(text) => ErrorModel::FailJob(text@),
            Error::GetState(text) => ErrorModel::GetState(text@),
        }
    }
}

impl Error {
    /// What an error says, in words.
    pub open spec fn message(&self) -> Seq<char> {
        match self {
            Error::Json(text) => text@,
            Error::Shape => "Unexpected shape of the JSON body"@,
            Error::WrongVariant(wrong) => "Invalid job "@ + wrong.found.name() + ", expected "@
                + wrong.expected.name(),
            Error::TooManyJobs { asked, sent } => "Too many jobs("@ + digits(*sent as nat)
                + ") for "@ + digits(*asked as nat),
            Error::JobNotExist => "Job doesn't exist"@,
            Error::NotEnoughJobs(count) => "Not enough jobs("@ + digits(*count as nat) + ")"@,
            Error::FetchJobs(text) => "Error while fetching jobs: "@ + text@,
            Error::SubmitOutput(text) => "Error while submitting output: "@ + text@,
            Error::FetchOutput(text) => "Error while fetching output: "@ + text@,
            Error::FailJob(text) => "Error while submitting job failure: "@ + text@,
            Error::GetState(text) => "Error while fetching job state: "@ + text@,
        }
    }

    /// What the error says, in words.
    pub fn to_string(&self) -> (text: String)
        ensures
            text@ == self.message(),
    {
        match self {
            Error::Json(text) => text.clone(),
            Error::Shape => "Unexpected shape of the JSON body".to_owned(),
            Error::WrongVariant(wrong) => "Invalid job ".to_owned().concat(
                wrong.found.to_string().as_str(),
            ).concat(", expected ").concat(wrong.expected.to_string().as_str()),
            Error::TooManyJobs { asked, sent } => "Too many jobs(".to_owned().concat(
                decimal(*sent as u64).as_str(),
            ).concat(") for ").concat(decimal(*asked as u64).as_str()),
            Error::JobNotExist => "Job doesn't exist".to_owned(),
            Error::NotEnoughJobs(count) => "Not enough jobs(".to_owned().concat(
                decimal(*count as u64).as_str(),
            ).concat(")"),
            Error::FetchJobs(text) => "Error while fetching jobs: ".to_owned().concat(
                text.as_str(),
            ),
            Error::SubmitOutput(text) => "Error while submitting output: ".to_owned().concat(
                text.as_str(),
            ),
            Error::FetchOutput(text) => "Error while fetching output: ".to_owned().concat(
                text.as_str(),
            ),
            Error::FailJob(text) => "Error while submitting job failure: ".to_owned().concat(
                text.as_str(),
            ),
            Error::GetState(text) => "Error while fetching job state: ".to_owned().concat(
                text.as_str(),
            ),
        }
    }
}

/// How a request is sent.
#[derive(Debug, Clone, Copy, PartialEq, Eq, Structural)]
pub enum Method {
    Get,
    Post,
}

/// A request to the service.
#[derive(Debug, Clone, PartialEq, Eq)]
pub struct HttpRequest {
    pub method: Method,
    pub uri: String,
    pub content_type: String,
    pub body: Option<String>,
}

/// What a request holds, as mathematical data.
pub struct HttpRequestModel {
    pub method: Method,
    pub uri: Seq<char>,
    pub content_type: Seq<char>,
    pub body: Option<Seq<char>>,
}

impl View for HttpRequest {
    type V = HttpRequestModel;

    open spec fn view(&self) -> HttpRequestModel {
        HttpRequestModel {
            method: self.method,
            uri: self.uri@,
            content_type: self.content_type@,
            body: match self.body {
                Some(text) => Some(text@),
                None => None,
            },
        }
    }
}

/// The query for `uri`: no body, JSON declared.
pub open spec fn query(uri: Seq<char>) -> HttpRequestModel {
    HttpRequestModel { method: Method::Get, uri, content_type: JSON_CONTENT_TYPE@, body: None }
}

/// The request that posts the JSON text `body` to `uri`.
pub open spec fn post(uri: Seq<char>, body: Seq<char>) -> HttpRequestModel {
    HttpRequestModel {
        method: Method::Post,
        uri,
        content_type: JSON_CONTENT_TYPE@,
        body: Some(body),
    }
}

/// A path template with the count and the kind put in.
pub open spec fn count_path(template: Seq<char>, count: usize, kind: JobType) -> Seq<char> {
    replaced(replaced(template, ":count"@, digits(count as nat)), ":job_type"@, kind.name())
}

/// A path template with the provider, the sector and the kind put in.
pub open spec fn job_path(
    template: Seq<char>,
    provider: StorageProviderId,
    sector: SectorId,
    kind: JobType,
) -> Seq<char> {
    replaced(
        replaced(
            replaced(template, ":storage_provider_id"@, digits(provider.0 as nat)),
            ":sector_id"@,
            digits(sector.0 as nat),
        ),
        ":job_type"@,
        kind.name(),
    )
}

/// The response of the service, as far as the protocol reads it.
#[derive(Debug, Clone, PartialEq, Eq)]
pub struct HttpResponse {
    pub status: u16,
    pub body: String,
}

/// What a response to a job that was added or an output that was submitted
/// means: anything but 200 is an error with the body.
pub open spec fn accepted(status: u16, body: Seq<char>) -> Result<(), ErrorModel> {
    if status == STATUS_OK {
        Ok(())
    } else {
        Err(ErrorModel::FetchJobs(body))
    }
}

/// What a response to a failure that was reported means: anything but 200
/// is an error of its own kind with the body, so that a caller can tell that
/// it was the report that failed.
pub open spec fn failure_noted(status: u16, body: Seq<char>) -> Result<(), ErrorModel> {
    if status == STATUS_OK {
        Ok(())
    } else {
        Err(ErrorModel::FailJob(body))
    }
}

/// The job envelope in a tree, where it is of the kind asked for.
pub open spec fn job_of_kind(kind: JobType, tree: JsonModel) -> Result<JobHttpModel, ErrorModel> {
    match tree_job(tree) {
        Some(job) => if job.kind() == kind {
            Ok(job)
        } else {
            Err(ErrorModel::WrongVariant(WrongVariant { expected: kind, found: job.kind() }))
        },
        None => Err(ErrorModel::Shape),
    }
}

/// The bytes of the output envelope in a tree, where it is of the kind asked
/// for.
pub open spec fn output_of_kind(kind: JobType, tree: JsonModel) -> Result<Seq<u8>, ErrorModel> {
    match tree_output(tree) {
        Some(output) => if output.kind == kind {
            Ok(output.bytes)
        } else {
            Err(ErrorModel::WrongVariant(WrongVariant { expected: kind, found: output.kind }))
        },
        None => Err(ErrorModel::Shape),
    }
}

/// `i` is the place of the first job of another kind than `kind`.
pub open spec fn first_stray(jobs: Seq<JobHttpModel>, kind: JobType, i: int) -> bool {
    &&& 0 <= i < jobs.len()
    &&& jobs[i].kind() != kind
    &&& forall|k: int| 0 <= k < i ==> (#[trigger] jobs[k]).kind() == kind
}

/// The job envelopes in a tree, where all are of the kind asked for; else
/// the error names the kind of the first that is not.
pub open spec fn jobs_of_kind(kind: JobType, tree: JsonModel) -> Result<
    Seq<JobHttpModel>,
    ErrorModel,
> {
    match tree_jobs(tree) {
        Some(jobs) => if exists|i: int| first_stray(jobs, kind, i) {
            let i = choose|i: int| first_stray(jobs, kind, i);
            Err(ErrorModel::WrongVariant(WrongVariant { expected: kind, found: jobs[i].kind() }))
        } else {
            Ok(jobs)
        },
        None => Err(ErrorModel::Shape),
    }
}

/// The jobs of a list, where they are no more than were asked for.
pub open spec fn at_most(count: usize, jobs: Seq<JobHttpModel>) -> Result<
    Seq<JobHttpModel>,
    ErrorModel,
> {
    if jobs.len() <= count {
        Ok(jobs)
    } else {
        Err(ErrorModel::TooManyJobs { asked: count, sent: jobs.len() as usize })
    }
}

/// What the response to a request for `count` jobs means: no content is
/// not enough jobs; on 200 the jobs of the body, in order, all of the kind
/// asked for and no more than `count`.
pub open spec fn jobs_outcome(
    kind: JobType,
    count: usize,
    status: u16,
    body: Seq<char>,
) -> Result<Seq<JobHttpModel>, ErrorModel> {
    if status == STATUS_NO_CONTENT {
        Err(ErrorModel::NotEnoughJobs(count))
    } else if status != STATUS_OK {
        Err(ErrorModel::FetchJobs(body))
    } else {
        match parsed(body) {
            Some(tree) => match jobs_of_kind(kind, tree) {
                Ok(jobs) => at_most(count, jobs),
                Err(e) => Err(e),
            },
            None => Err(ErrorModel::Json),
        }
    }
}

/// What the response to a query for the input of a job means.
pub open spec fn input_outcome(kind: JobType, status: u16, body: Seq<char>) -> Result<
    Option<JobHttpModel>,
    ErrorModel,
> {
    if status == STATUS_NO_CONTENT {
        Ok(None)
    } else if status != STATUS_OK {
        Err(ErrorModel::FetchOutput(body))
    } else {
        match parsed(body) {
            Some(tree) => match job_of_kind(kind, tree) {
                Ok(job) => Ok(Some(job)),
                Err(e) => Err(e),
            },
            None => Err(ErrorModel::Json),
        }
    }
}

/// The message of a failed job in a tree.
pub open spec fn failure_of(tree: JsonModel) -> Result<Seq<char>, ErrorModel> {
    match tree_failure(tree) {
        Some(message) => Ok(message),
        None => Err(ErrorModel::Shape),
    }
}

/// What the response to a query for the output of a job means: nothing yet,
/// the bytes of the output, or the message of the job's failure.
pub open spec fn output_outcome(kind: JobType, status: u16, body: Seq<char>) -> Result<
    Option<Result<Seq<u8>, Seq<char>>>,
    ErrorModel,
> {
    if status == STATUS_NO_CONTENT {
        Ok(None)
    } else if status == STATUS_FAILED_DEPENDENCY {
        match parsed(body) {
            Some(tree) => match failure_of(tree) {
                Ok(message) => Ok(Some(Err(message))),
                Err(e) => Err(e),
            },
            None => Err(ErrorModel::Json),
        }
    } else if status != STATUS_OK {
        Err(ErrorModel::FetchOutput(body))
    } else {
        match parsed(body) {
            Some(tree) => match output_of_kind(kind, tree) {
                Ok(bytes) => Ok(Some(Ok(bytes))),
                Err(e) => Err(e),
            },
            None => Err(ErrorModel::Json),
        }
    }
}

/// The state in a tree.
pub open spec fn state_of(tree: JsonModel) -> Result<JobState, ErrorModel> {
    match tree_state(tree) {
        Some(state) => Ok(state),
        None => Err(ErrorModel::Shape),
    }
}

/// What the response to a query for the state of a job means.
pub open spec fn state_outcome(status: u16, body: Seq<char>) -> Result<
    Option<JobState>,
    ErrorModel,
> {
    if status == STATUS_NO_CONTENT {
        Ok(None)
    } else if status != STATUS_OK {
        Err(ErrorModel::GetState(body))
    } else {
        match parsed(body) {
            Some(tree) => match state_of(tree) {
                Ok(state) => Ok(Some(state)),
                Err(e) => Err(e),
            },
            None => Err(ErrorModel::Json),
        }
    }
}

/// A request for jobs that is answered with "no content" fails with the
/// count that was asked for: it never succeeds, with an empty list or any
/// other.
pub proof fn lemma_no_content_is_not_enough_jobs(kind: JobType, count: usize, body: Seq<char>)
    ensures
        jobs_outcome(kind, count, STATUS_NO_CONTENT, body) == Err::<Seq<JobHttpModel>, ErrorModel>(
            ErrorModel::NotEnoughJobs(count),
        ),
{
}

/// A request for jobs that succeeds hands out no more jobs than were asked
/// for.
pub proof fn lemma_jobs_outcome_length(kind: JobType, count: usize, status: u16, body: Seq<char>)
    ensures
        jobs_outcome(kind, count, status, body) matches Ok(jobs) ==> jobs.len() <= count,
{
}

/// A query for an output means: on "no content", nothing; on "failed
/// dependency" with a body whose member `err` is a text, the failure of the
/// job with that text, which is a success of the query; on 200 with the
/// body of an output envelope of the kind asked for, the bytes of that
/// output.
pub proof fn lemma_output_outcome(kind: JobType, body: Seq<char>)
    ensures
        output_outcome(kind, STATUS_NO_CONTENT, body) == Ok::<
            Option<Result<Seq<u8>, Seq<char>>>,
            ErrorModel,
        >(None),
        parsed(body) is Some && tree_failure(parsed(body)->0) is Some ==> output_outcome(
            kind,
            STATUS_FAILED_DEPENDENCY,
            body,
        ) == Ok::<Option<Result<Seq<u8>, Seq<char>>>, ErrorModel>(
            Some(Err(tree_failure(parsed(body)->0)->0)),
        ),
        parsed(body) is Some && tree_output(parsed(body)->0) is Some && tree_output(
            parsed(body)->0,
        )->0.kind == kind ==> output_outcome(kind, STATUS_OK, body) == Ok::<
            Option<Result<Seq<u8>, Seq<char>>>,
            ErrorModel,
        >(Some(Ok(tree_output(parsed(body)->0)->0.bytes))),
{
}

/// A status that the protocol gives no meaning is an error that carries the
/// body as it came, in every operation.
pub proof fn lemma_other_status_keeps_body(
    kind: JobType,
    count: usize,
    status: u16,
    body: Seq<char>,
)
    requires
        status != STATUS_OK,
        status != STATUS_NO_CONTENT,
        status != STATUS_FAILED_DEPENDENCY,
    ensures
        accepted(status, body) == Err::<(), ErrorModel>(ErrorModel::FetchJobs(body)),
        failure_noted(status, body) == Err::<(), ErrorModel>(ErrorModel::FailJob(body)),
        jobs_outcome(kind, count, status, body) == Err::<Seq<JobHttpModel>, ErrorModel>(
            ErrorModel::FetchJobs(body),
        ),
        input_outcome(kind, status, body) == Err::<Option<JobHttpModel>, ErrorModel>(
            ErrorModel::FetchOutput(body),
        ),
        output_outcome(kind, status, body) == Err::<
            Option<Result<Seq<u8>, Seq<char>>>,
            ErrorModel,
        >(ErrorModel::FetchOutput(body)),
        state_outcome(status, body) == Err::<Option<JobState>, ErrorModel>(
            ErrorModel::GetState(body),
        ),
{
}

/// The erased views of the jobs of a list, in order.
pub open spec fn erased_models<J: Enveloped>(jobs: Seq<J>) -> Seq<JobHttpModel> {
    Seq::new(jobs.len(), |i: int| jobs[i].erased()@)
}

/// The job in a tree, as a job of one kind.
pub fn job_from_tree<J: Enveloped>(tree: &Json) -> (job: Result<J, Error>)
    ensures
        match job {
            Ok(j) => job_of_kind(J::kind(), tree@) == Ok::<JobHttpModel, ErrorModel>(j.erased()@),
            Err(e) => job_of_kind(J::kind(), tree@) == Err::<JobHttpModel, ErrorModel>(e@),
        },
{
    match decode_job(tree) {
        Some(envelope) => {
            proof {
                J::lemma_recovered(envelope);
            }
            match J::recover(envelope) {
                Ok(job) => Ok(job),
                Err(wrong) => Err(Error::WrongVariant(wrong)),
            }
        },
        None => Err(Error::Shape),
    }
}

/// The jobs in a tree, as jobs of one kind.
pub fn jobs_from_tree<J: Enveloped>(tree: &Json) -> (jobs: Result<Vec<J>, Error>)
    ensures
        match jobs {
            Ok(list) => jobs_of_kind(J::kind(), tree@) == Ok::<Seq<JobHttpModel>, ErrorModel>(
                erased_models(list@),
            ),
            Err(e) => jobs_of_kind(J::kind(), tree@) == Err::<Seq<JobHttpModel>, ErrorModel>(e@),
        },
{
    let envelopes = match decode_jobs(tree) {
        Some(response) => response.jobs,
        None => return Err(Error::Shape),
    };
    let ghost models = crate::envelope::job_models(envelopes@);
    let mut jobs: Vec<J> = Vec::new();
    for envelope in iter: envelopes.into_iter()
        invariant
            iter.seq() == envelopes@,
            models == crate::envelope::job_models(envelopes@),
            tree_jobs(tree@) == Some(models),
            jobs@.len() == iter.index(),
            forall|k: int| 0 <= k < jobs@.len() ==> (#[trigger] jobs@[k]).erased()@ == models[k],
            forall|k: int| 0 <= k < jobs@.len() ==> (#[trigger] models[k]).kind() == J::kind(),
    {
        proof {
            J::lemma_recovered(envelope);
        }
        match J::recover(envelope) {
            Ok(job) => {
                jobs.push(job);
            },
            Err(wrong) => {
                proof {
                    let at = iter.index() as int;
                    assert(first_stray(models, J::kind(), at));
                    let chosen = choose|i: int| first_stray(models, J::kind(), i);
                    assert(first_stray(models, J::kind(), chosen));
                    assert(chosen == at) by {
                        if chosen < at {
                            assert(models[chosen].kind() == J::kind());
                        }
                        if at < chosen {
                            assert(models[at].kind() == J::kind());
                        }
                    }
                }
                return Err(Error::WrongVariant(wrong));
            },
        }
    }
    proof {
        assert(erased_models(jobs@) =~= models);
        assert forall|i: int| !first_stray(models, J::kind(), i) by {
            if 0 <= i < models.len() {
                assert(models[i].kind() == J::kind());
            }
        }
    }
    Ok(jobs)
}

/// The output in a tree, as the output of a job of one kind.
pub fn output_from_tree<J: Enveloped>(tree: &Json) -> (output: Result<J::Output, Error>)
    ensures
        match output {
            Ok(o) => output_of_kind(J::kind(), tree@) == Ok::<Seq<u8>, ErrorModel>(
                J::erased_output(o)@.bytes,
            ),
            Err(e) => output_of_kind(J::kind(), tree@) == Err::<Seq<u8>, ErrorModel>(e@),
        },
{
    match decode_output(tree) {
        Some(envelope) => {
            proof {
                J::lemma_recovered_output(envelope);
            }
            match J::recover_output(envelope) {
                Ok(output) => Ok(output),
                Err(wrong) => Err(Error::WrongVariant(wrong)),
            }
        },
        None => Err(Error::Shape),
    }
}

/// The message of a failed job in a tree.
pub fn failure_from_tree(tree: &Json) -> (message: Result<String, Error>)
    ensures
        match message {
            Ok(m) => failure_of(tree@) == Ok::<Seq<char>, ErrorModel>(m@),
            Err(e) => failure_of(tree@) == Err::<Seq<char>, ErrorModel>(e@),
        },
{
    match decode_failure(tree) {
        Some(message) => Ok(message),
        None => Err(Error::Shape),
    }
}

/// The state in a tree.
pub fn state_from_tree(tree: &Json) -> (state: Result<JobState, Error>)
    ensures
        match state {
            Ok(s) => state_of(tree@) == Ok::<JobState, ErrorModel>(s),
            Err(e) => state_of(tree@) == Err::<JobState, ErrorModel>(e@),
        },
{
    match decode_state(tree) {
        Some(state) => Ok(state),
        None => Err(Error::Shape),
    }
}

/// The addresses of the operations of one job-management service.
#[derive(Debug, Clone)]
pub struct SealingJobManagerHttpClient {
    add_jobs_uri: String,
    request_jobs_uri: String,
    submit_output_uri: String,
    get_job_output_uri: String,
    get_job_input_uri: String,
    fail_job_uri: String,
    get_job_state_uri: String,
}

impl SealingJobManagerHttpClient {
    /// Where jobs are added.
    pub closed spec fn add_jobs_address(&self) -> Seq<char> {
        self.add_jobs_uri@
    }

    /// The template of where jobs are requested.
    pub closed spec fn request_jobs_template(&self) -> Seq<char> {
        self.request_jobs_uri@
    }

    /// Where outputs are submitted.
    pub closed spec fn submit_output_address(&self) -> Seq<char> {
        self.submit_output_uri@
    }

    /// The template of where an output is fetched.
    pub closed spec fn get_job_output_template(&self) -> Seq<char> {
        self.get_job_output_uri@
    }

    /// The template of where an input is fetched.
    pub closed spec fn get_job_input_template(&self) -> Seq<char> {
        self.get_job_input_uri@
    }

    /// Where failures are reported.
    pub closed spec fn fail_job_address(&self) -> Seq<char> {
        self.fail_job_uri@
    }

    /// The template of where a state is fetched.
    pub closed spec fn get_job_state_template(&self) -> Seq<char> {
        self.get_job_state_uri@
    }

    /// The client of the service at `uri`: every address is `uri` followed by
    /// the path of its operation.
    pub fn new(uri: String) -> (client: Self)
        ensures
            client.add_jobs_address() == uri@ + ADD_JOBS_URL@,
            client.request_jobs_template() == uri@ + GET_JOBS_URL@,
            client.submit_output_address() == uri@ + SUBMIT_OUTPUT_URL@,
            client.get_job_output_template() == uri@ + GET_OUTPUT_URL@,
            client.get_job_input_template() == uri@ + GET_JOB_INPUT_URI@,
            client.fail_job_address() == uri@ + FAIL_JOB_URL@,
            client.get_job_state_template() == uri@ + GET_JOB_STATE_URL@,
    {
        SealingJobManagerHttpClient {
            add_jobs_uri: uri.clone().concat(ADD_JOBS_URL),
            request_jobs_uri: uri.clone().concat(GET_JOBS_URL),
            submit_output_uri: uri.clone().concat(SUBMIT_OUTPUT_URL),
            get_job_output_uri: uri.clone().concat(GET_OUTPUT_URL),
            get_job_input_uri: uri.clone().concat(GET_JOB_INPUT_URI),
            fail_job_uri: uri.clone().concat(FAIL_JOB_URL),
            get_job_state_uri: uri.concat(GET_JOB_STATE_URL),
        }
    }

    /// A query for `uri`.
    fn get(uri: String) -> (request: HttpRequest)
        ensures
            request@ == query(uri@),
    {
        HttpRequest {
            method: Method::Get,
            uri,
            content_type: JSON_CONTENT_TYPE.to_owned(),
            body: None,
        }
    }

    /// A request that posts the tree `body` to `uri`.
    fn send(uri: &String, body: &Json) -> (request: HttpRequest)
        requires
            body@.plain(),
        ensures
            request@ == post(uri@, printed(body@)),
    {
        HttpRequest {
            method: Method::Post,
            uri: uri.clone(),
            content_type: JSON_CONTENT_TYPE.to_owned(),
            body: Some(print(body)),
        }
    }

    /// Puts the provider, the sector and the kind into a path template.
    fn fill(template: &String, provider: StorageProviderId, sector: SectorId, kind: JobType) -> (uri:
        String)
        ensures
            uri@ == job_path(template@, provider, sector, kind),
    {
        let uri = replace(
            template.as_str(),
            ":storage_provider_id",
            decimal(provider.0).as_str(),
        );
        let uri = replace(uri.as_str(), ":sector_id", decimal(sector.0).as_str());
        replace(uri.as_str(), ":job_type", kind.to_string().as_str())
    }

    /// The request that adds a job: the envelope of the job, posted.
    pub fn add_job<J: Enveloped>(&self, job: J) -> (request: HttpRequest)
        ensures
            request@ == post(self.add_jobs_address(), printed(job_tree(job.erased()@))),
    {
        let envelope = job.erase();
        let tree = encode_job(&envelope);
        proof {
            lemma_job_tree_plain(envelope@);
        }
        Self::send(&self.add_jobs_uri, &tree)
    }

    /// What the response to `add_job` means.
    pub fn add_job_outcome(response: &HttpResponse) -> (outcome: Result<(), Error>)
        ensures
            match outcome {
                Ok(_) => accepted(response.status, response.body@) is Ok,
                Err(e) => accepted(response.status, response.body@) == Err::<(), ErrorModel>(e@),
            },
    {
        if response.status != STATUS_OK {
            return Err(Error::FetchJobs(response.body.clone()));
        }
        Ok(())
    }

    /// The request for up to `count` jobs of the kind of `J`.
    pub fn request_jobs<J: Enveloped>(&self, count: usize) -> (request: HttpRequest)
        ensures
            request@ == query(count_path(self.request_jobs_template(), count, J::kind())),
    {
        let uri = replace(self.request_jobs_uri.as_str(), ":count", decimal(count as u64).as_str());
        let uri = replace(uri.as_str(), ":job_type", J::job_type().to_string().as_str());
        Self::get(uri)
    }

    /// What the response to `request_jobs` means: on 204 there are not
    /// enough jobs, never an empty list; on 200 the jobs, at most `count`.
    pub fn request_jobs_outcome<J: Enveloped>(count: usize, response: &HttpResponse) -> (outcome:
        Result<Vec<J>, Error>)
        ensures
            match outcome {
                Ok(jobs) => jobs_outcome(J::kind(), count, response.status, response.body@) == Ok::<
                    Seq<JobHttpModel>,
                    ErrorModel,
                >(erased_models(jobs@)),
                Err(e) => jobs_outcome(J::kind(), count, response.status, response.body@) == Err::<
                    Seq<JobHttpModel>,
                    ErrorModel,
                >(e@),
            },
    {
        if response.status == STATUS_NO_CONTENT {
            return Err(Error::NotEnoughJobs(count));
        }
        if response.status != STATUS_OK {
            return Err(Error::FetchJobs(response.body.clone()));
        }
        match parse(response.body.as_str()) {
            Ok(tree) => match jobs_from_tree::<J>(&tree) {
                Ok(jobs) => {
                    if jobs.len() > count {
                        Err(Error::TooManyJobs { asked: count, sent: jobs.len() })
                    } else {
                        Ok(jobs)
                    }
                },
                Err(e) => Err(e),
            },
            Err(e) => Err(Error::Json(e)),
        }
    }

    /// The query for the input of the job of the kind of `J` on the given
    /// sector.
    pub fn get_job_input<J: Enveloped>(
        &self,
        storage_provider_id: StorageProviderId,
        sector_id: SectorId,
    ) -> (request: HttpRequest)
        ensures
            request@ == query(
                job_path(self.get_job_input_template(), storage_provider_id, sector_id, J::kind()),
            ),
    {
        Self::get(Self::fill(&self.get_job_input_uri, storage_provider_id, sector_id, J::job_type()))
    }

    /// What the response to `get_job_input` means.
    pub fn get_job_input_outcome<J: Enveloped>(response: &HttpResponse) -> (outcome: Result<
        Option<J>,
        Error,
    >)
        ensures
            match outcome {
                Ok(Some(job)) => input_outcome(J::kind(), response.status, response.body@) == Ok::<
                    Option<JobHttpModel>,
                    ErrorModel,
                >(Some(job.erased()@)),
                Ok(None) => input_outcome(J::kind(), response.status, response.body@) == Ok::<
                    Option<JobHttpModel>,
                    ErrorModel,
                >(None),
                Err(e) => input_outcome(J::kind(), response.status, response.body@) == Err::<
                    Option<JobHttpModel>,
                    ErrorModel,
                >(e@),
            },
    {
        if response.status == STATUS_NO_CONTENT {
            return Ok(None);
        }
        if response.status != STATUS_OK {
            return Err(Error::FetchOutput(response.body.clone()));
        }
        match parse(response.body.as_str()) {
            Ok(tree) => match job_from_tree::<J>(&tree) {
                Ok(job) => Ok(Some(job)),
                Err(e) => Err(e),
            },
            Err(e) => Err(Error::Json(e)),
        }
    }

    /// The request that submits the output of the job of the kind of `J` on
    /// the given sector.
    pub fn submit_job_output<J: Enveloped>(
        &self,
        storage_provider_id: StorageProviderId,
        sector_id: SectorId,
        output: J::Output,
    ) -> (request: HttpRequest)
        ensures
            request@ == post(
                self.submit_output_address(),
                printed(
                    submit_tree(
                        SubmitModel {
                            storage_provider_id,
                            sector_id,
                            job: J::erased_output(output)@,
                        },
                    ),
                ),
            ),
    {
        let body = SubmitSealingJobOutput {
            storage_provider_id,
            sector_id,
            job: J::erase_output(output),
        };
        let tree = encode_submit(&body);
        proof {
            lemma_submit_tree_plain(body@);
        }
        Self::send(&self.submit_output_uri, &tree)
    }

    /// What the response to `submit_job_output` means.
    pub fn submit_job_output_outcome(response: &HttpResponse) -> (outcome: Result<(), Error>)
        ensures
            match outcome {
                Ok(_) => accepted(response.status, response.body@) is Ok,
                Err(e) => accepted(response.status, response.body@) == Err::<(), ErrorModel>(e@),
            },
    {
        if response.status != STATUS_OK {
            return Err(Error::FetchJobs(response.body.clone()));
        }
        Ok(())
    }

    /// The query for the output of the job of the kind of `J` on the given
    /// sector.
    pub fn get_job_output<J: Enveloped>(
        &self,
        storage_provider_id: StorageProviderId,
        sector_id: SectorId,
    ) -> (request: HttpRequest)
        ensures
            request@ == query(
                job_path(self.get_job_output_template(), storage_provider_id, sector_id, J::kind()),
            ),
    {
        Self::get(
            Self::fill(&self.get_job_output_uri, storage_provider_id, sector_id, J::job_type()),
        )
    }

    /// What the response to `get_job_output` means: on 204 nothing yet, on
    /// 424 the message of the failed job, on 200 its output.
    pub fn get_job_output_outcome<J: Enveloped>(response: &HttpResponse) -> (outcome: Result<
        Option<JobOutput<J>>,
        Error,
    >)
        ensures
            match outcome {
                Ok(Some(JobOutput(Ok(output)))) => output_outcome(
                    J::kind(),
                    response.status,
                    response.body@,
                ) == Ok::<Option<Result<Seq<u8>, Seq<char>>>, ErrorModel>(
                    Some(Ok(J::erased_output(output)@.bytes)),
                ),
                Ok(Some(JobOutput(Err(message)))) => output_outcome(
                    J::kind(),
                    response.status,
                    response.body@,
                ) == Ok::<Option<Result<Seq<u8>, Seq<char>>>, ErrorModel>(Some(Err(message@))),
                Ok(None) => output_outcome(J::kind(), response.status, response.body@) == Ok::<
                    Option<Result<Seq<u8>, Seq<char>>>,
                    ErrorModel,
                >(None),
                Err(e) => output_outcome(J::kind(), response.status, response.body@) == Err::<
                    Option<Result<Seq<u8>, Seq<char>>>,
                    ErrorModel,
                >(e@),
            },
    {
        if response.status == STATUS_NO_CONTENT {
            return Ok(None);
        }
        if response.status == STATUS_FAILED_DEPENDENCY {
            return match parse(response.body.as_str()) {
                Ok(tree) => match failure_from_tree(&tree) {
                    Ok(message) => Ok(Some(JobOutput(Err(message)))),
                    Err(e) => Err(e),
                },
                Err(e) => Err(Error::Json(e)),
            };
        }
        if response.status != STATUS_OK {
            return Err(Error::FetchOutput(response.body.clone()));
        }
        match parse(response.body.as_str()) {
            Ok(tree) => match output_from_tree::<J>(&tree) {
                Ok(output) => Ok(Some(JobOutput(Ok(output)))),
                Err(e) => Err(e),
            },
            Err(e) => Err(Error::Json(e)),
        }
    }

    /// The request that reports the failure of the job of the kind of `J` on
    /// the given sector.
    pub fn fail_job<J: Enveloped>(
        &self,
        storage_provider_id: StorageProviderId,
        sector_id: SectorId,
        error: &str,
    ) -> (request: HttpRequest)
        ensures
            request@ == post(
                self.fail_job_address(),
                printed(
                    fail_tree(
                        FailJobModel {
                            storage_provider_id,
                            sector_id,
                            job_type: J::kind(),
                            error: error@,
                        },
                    ),
                ),
            ),
    {
        let body = FailJob {
            storage_provider_id,
            sector_id,
            job_type: J::job_type(),
            error: error.to_owned(),
        };
        let tree = encode_fail(&body);
        proof {
            lemma_fail_tree_plain(body@);
        }
        Self::send(&self.fail_job_uri, &tree)
    }

    /// What the response to `fail_job` means.
    pub fn fail_job_outcome(response: &HttpResponse) -> (outcome: Result<(), Error>)
        ensures
            match outcome {
                Ok(_) => failure_noted(response.status, response.body@) is Ok,
                Err(e) => failure_noted(response.status, response.body@) == Err::<
                    (),
                    ErrorModel,
                >(e@),
            },
    {
        if response.status != STATUS_OK {
            return Err(Error::FailJob(response.body.clone()));
        }
        Ok(())
    }

    /// The query for the state of the job of the kind of `J` on the given
    /// sector.
    pub fn get_job_state<J: Enveloped>(
        &self,
        storage_provider_id: StorageProviderId,
        sector_id: SectorId,
    ) -> (request: HttpRequest)
        ensures
            request@ == query(
                job_path(self.get_job_state_template(), storage_provider_id, sector_id, J::kind()),
            ),
    {
        Self::get(Self::fill(&self.get_job_state_uri, storage_provider_id, sector_id, J::job_type()))
    }

    /// What the response to `get_job_state` means.
    pub fn get_job_state_outcome(response: &HttpResponse) -> (outcome: Result<
        Option<JobState>,
        Error,
    >)
        ensures
            match outcome {
                Ok(state) => state_outcome(response.status, response.body@) == Ok::<
                    Option<JobState>,
                    ErrorModel,
                >(state),
                Err(e) => state_outcome(response.status, response.body@) == Err::<
                    Option<JobState>,
                    ErrorModel,
                >(e@),
            },
    {
        if response.status == STATUS_NO_CONTENT {
            return Ok(None);
        }
        if response.status != STATUS_OK {
            return Err(Error::GetState(response.body.clone()));
        }
        match parse(response.body.as_str()) {
            Ok(tree) => match state_from_tree(&tree) {
                Ok(state) => Ok(Some(state)),
                Err(e) => Err(e),
            },
            Err(e) => Err(Error::Json(e)),
        }
    }
}

} // verus!
