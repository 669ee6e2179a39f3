use sealing_jobs::client::{
    Error, HttpResponse, Method, SealingJobManagerHttpClient, ADD_JOBS_URL, FAIL_JOB_URL,
    GENERATE_TICKET_URL, GET_ALL_JOBS_URL, GET_JOBS_URL, GET_JOB_INPUT_URI, GET_JOB_STATE_URL,
    GET_OUTPUT_URL, GET_SECTOR_PATHS_URL, SUBMIT_OUTPUT_URL,
};
use sealing_jobs::envelope::{JobOutput, JobState, WrongVariant};
use sealing_jobs::filecoin::{
    ChainEpoch, RegisteredSealProof, SectorId, StorageProviderId, Ticket,
};
use sealing_jobs::job::JobType;
use sealing_jobs::sealing::{
    C1Output, C2Output, PC1Input, PC1Output, SealingJob, C1, C2, PC, PC1, PC2,
};

const PC1_JOB: &str = "{\"job_type\":\"PC1\",\"input\":{\"registered_proof\":\"StackedDrg2KiBV1\",\
    \"storage_provider_id\":1111,\"sector_id\":123123,\
    \"ticket\":\"AQEBAQEBAQEBAQEBAQEBAQEBAQEBAQEBAQEBAQEBAQE=\",\"ticket_epoch\":1100}}";

fn pc1_input() -> PC1Input {
    PC1Input {
        registered_proof: RegisteredSealProof::StackedDrg2KiBV1,
        storage_provider_id: StorageProviderId(1111),
        sector_id: SectorId(123123),
        ticket: Ticket([1; 32]),
        ticket_epoch: ChainEpoch(1100),
    }
}

fn client() -> SealingJobManagerHttpClient {
    SealingJobManagerHttpClient::new("http://jobs.example:8080".to_string())
}

fn response(status: u16, body: &str) -> HttpResponse {
    HttpResponse { status, body: body.to_string() }
}

#[test]
fn path_templates() {
    assert_eq!(ADD_JOBS_URL, "/job");
    assert_eq!(GET_JOBS_URL, "/job/:count/:job_type");
    assert_eq!(GET_ALL_JOBS_URL, "/job/all/:storage_provider_id/:job_type");
    assert_eq!(GET_JOB_INPUT_URI, "/job/input/:storage_provider_id/:sector_id/:job_type");
    assert_eq!(GET_JOB_STATE_URL, "/job/state/:storage_provider_id/:sector_id/:job_type");
    assert_eq!(SUBMIT_OUTPUT_URL, "/job/output");
    assert_eq!(GET_OUTPUT_URL, "/job/output/:storage_provider_id/:sector_id/:job_type");
    assert_eq!(FAIL_JOB_URL, "/job/fail");
    assert_eq!(GENERATE_TICKET_URL, "/job/ticket/:storage_provider_id");
    assert_eq!(GET_SECTOR_PATHS_URL, "/sector/paths/:storage_provider_id/:sector_id");
}

#[test]
fn add_job_posts_the_envelope() {
    let request = client().add_job(PC1 { input: pc1_input() });
    assert_eq!(request.method, Method::Post);
    assert_eq!(request.uri, "http://jobs.example:8080/job");
    assert_eq!(request.content_type, "application/json");
    assert_eq!(request.body.as_deref(), Some(PC1_JOB));
}

#[test]
fn add_job_outcome_goes_by_the_status() {
    assert!(matches!(
        SealingJobManagerHttpClient::add_job_outcome(&response(200, "")),
        Ok(())
    ));
    assert!(matches!(
        SealingJobManagerHttpClient::add_job_outcome(&response(500, "queue is full")),
        Err(Error::FetchJobs(text)) if text == "queue is full"
    ));
    assert!(matches!(
        SealingJobManagerHttpClient::add_job_outcome(&response(204, "")),
        Err(Error::FetchJobs(text)) if text.is_empty()
    ));
    assert!(matches!(
        SealingJobManagerHttpClient::add_job_outcome(&response(201, "created")),
        Err(Error::FetchJobs(text)) if text == "created"
    ));
}

#[test]
fn request_jobs_puts_count_and_kind_into_the_path() {
    let request = client().request_jobs::<PC1>(5);
    assert_eq!(request.method, Method::Get);
    assert_eq!(request.uri, "http://jobs.example:8080/job/5/PC1");
    assert_eq!(request.content_type, "application/json");
    assert_eq!(request.body, None);
    assert_eq!(client().request_jobs::<PC>(0).uri, "http://jobs.example:8080/job/0/PC");
    assert_eq!(client().request_jobs::<C2>(1234567).uri, "http://jobs.example:8080/job/1234567/C2");
    assert_eq!(
        client().request_jobs::<C1>(usize::MAX).uri,
        format!("http://jobs.example:8080/job/{}/C1", usize::MAX)
    );
}

#[test]
fn placeholders_in_the_address_are_replaced_too() {
    let client = SealingJobManagerHttpClient::new("http://:count.example".to_string());
    assert_eq!(client.request_jobs::<PC2>(3).uri, "http://3.example/job/3/PC2");
}

#[test]
fn request_jobs_on_no_content_is_not_enough_jobs() {
    for count in [0usize, 1, 5, 1000] {
        let outcome =
            SealingJobManagerHttpClient::request_jobs_outcome::<PC1>(count, &response(204, ""));
        assert!(matches!(outcome, Err(Error::NotEnoughJobs(n)) if n == count));
    }
    let outcome = SealingJobManagerHttpClient::request_jobs_outcome::<C2>(
        7,
        &response(204, "{\"jobs\":[]}"),
    );
    assert!(matches!(outcome, Err(Error::NotEnoughJobs(7))));
}

#[test]
fn request_jobs_outcome_hands_out_typed_jobs_in_order() {
    let other = PC1_JOB.replace("123123", "5");
    let body = format!("{{\"jobs\":[{},{}]}}", PC1_JOB, other);
    let jobs = SealingJobManagerHttpClient::request_jobs_outcome::<PC1>(2, &response(200, &body))
        .unwrap();
    assert_eq!(jobs.len(), 2);
    assert_eq!(jobs[0], PC1 { input: pc1_input() });
    assert_eq!(jobs[1].sector_id(), SectorId(5));
    assert_eq!(jobs[1].storage_provider_id(), StorageProviderId(1111));

    let jobs =
        SealingJobManagerHttpClient::request_jobs_outcome::<PC1>(2, &response(200, "{\"jobs\":[]}"))
            .unwrap();
    assert!(jobs.is_empty());
}

#[test]
fn request_jobs_outcome_errors() {
    let outcome =
        SealingJobManagerHttpClient::request_jobs_outcome::<PC1>(2, &response(503, "down"));
    assert!(matches!(outcome, Err(Error::FetchJobs(text)) if text == "down"));

    let outcome =
        SealingJobManagerHttpClient::request_jobs_outcome::<PC1>(2, &response(200, "{\"jobs\":"));
    assert!(matches!(outcome, Err(Error::Json(_))));

    let outcome =
        SealingJobManagerHttpClient::request_jobs_outcome::<PC1>(2, &response(200, "{\"jobs\":5}"));
    assert!(matches!(outcome, Err(Error::Shape)));

    let pc = PC1_JOB.replace("\"job_type\":\"PC1\"", "\"job_type\":\"PC\"");
    let body = format!("{{\"jobs\":[{},{}]}}", PC1_JOB, pc);
    let outcome =
        SealingJobManagerHttpClient::request_jobs_outcome::<PC1>(2, &response(200, &body));
    assert!(matches!(
        outcome,
        Err(Error::WrongVariant(WrongVariant { expected: JobType::PC1, found: JobType::PC }))
    ));

    // one item is no job at all: the shape is wrong, whatever the kinds of the others
    let body = format!("{{\"jobs\":[{},{{}}]}}", pc);
    let outcome =
        SealingJobManagerHttpClient::request_jobs_outcome::<PC1>(2, &response(200, &body));
    assert!(matches!(outcome, Err(Error::Shape)));
}

#[test]
fn get_job_input_puts_the_key_into_the_path() {
    let request = client().get_job_input::<C1>(StorageProviderId(1111), SectorId(123123));
    assert_eq!(request.method, Method::Get);
    assert_eq!(request.uri, "http://jobs.example:8080/job/input/1111/123123/C1");
    assert_eq!(request.content_type, "application/json");
    assert_eq!(request.body, None);
}

#[test]
fn get_job_input_outcome_cases() {
    let outcome =
        SealingJobManagerHttpClient::get_job_input_outcome::<PC1>(&response(200, PC1_JOB));
    assert_eq!(outcome.unwrap(), Some(PC1 { input: pc1_input() }));

    let outcome = SealingJobManagerHttpClient::get_job_input_outcome::<PC1>(&response(204, ""));
    assert_eq!(outcome.unwrap(), None);

    let outcome = SealingJobManagerHttpClient::get_job_input_outcome::<PC1>(&response(404, "no"));
    assert!(matches!(outcome, Err(Error::FetchOutput(text)) if text == "no"));

    let outcome = SealingJobManagerHttpClient::get_job_input_outcome::<PC2>(&response(200, PC1_JOB));
    assert!(matches!(
        outcome,
        Err(Error::WrongVariant(WrongVariant { expected: JobType::PC2, found: JobType::PC1 }))
    ));

    let outcome = SealingJobManagerHttpClient::get_job_input_outcome::<PC1>(&response(200, "nul"));
    assert!(matches!(outcome, Err(Error::Json(_))));

    let outcome = SealingJobManagerHttpClient::get_job_input_outcome::<PC1>(&response(200, "{}"));
    assert!(matches!(outcome, Err(Error::Shape)));
}

#[test]
fn submit_job_output_posts_key_and_envelope() {
    let request = client().submit_job_output::<PC1>(
        StorageProviderId(1111),
        SectorId(123123),
        PC1Output(vec![1, 2, 3]),
    );
    assert_eq!(request.method, Method::Post);
    assert_eq!(request.uri, "http://jobs.example:8080/job/output");
    assert_eq!(request.content_type, "application/json");
    assert_eq!(
        request.body.as_deref(),
        Some(
            "{\"storage_provider_id\":1111,\"sector_id\":123123,\"job_type\":\"PC1\",\
             \"output\":\"AQID\"}"
        )
    );
}

#[test]
fn submit_job_output_outcome_goes_by_the_status() {
    assert!(SealingJobManagerHttpClient::submit_job_output_outcome(&response(200, "x")).is_ok());
    assert!(matches!(
        SealingJobManagerHttpClient::submit_job_output_outcome(&response(400, "bad")),
        Err(Error::FetchJobs(text)) if text == "bad"
    ));
}

#[test]
fn get_job_output_puts_the_key_into_the_path() {
    let request = client().get_job_output::<C2>(StorageProviderId(1), SectorId(2));
    assert_eq!(request.method, Method::Get);
    assert_eq!(request.uri, "http://jobs.example:8080/job/output/1/2/C2");
    assert_eq!(request.body, None);
}

#[test]
fn get_job_output_on_failed_dependency_is_the_failure_of_the_job() {
    let outcome = SealingJobManagerHttpClient::get_job_output_outcome::<C2>(&response(
        424,
        "{\"err\":\"bad proof\"}",
    ));
    match outcome {
        Ok(Some(JobOutput(Err(message)))) => assert_eq!(message, "bad proof"),
        _ => panic!("the failure of the job was expected"),
    }
}

#[test]
fn get_job_output_on_no_content_is_none() {
    let outcome = SealingJobManagerHttpClient::get_job_output_outcome::<C2>(&response(204, ""));
    assert!(matches!(outcome, Ok(None)));
}

#[test]
fn get_job_output_on_ok_is_the_output() {
    let outcome = SealingJobManagerHttpClient::get_job_output_outcome::<C2>(&response(
        200,
        "{\"job_type\":\"C2\",\"output\":\"AQID\"}",
    ));
    match outcome {
        Ok(Some(JobOutput(Ok(output)))) => assert_eq!(output, C2Output(vec![1, 2, 3])),
        _ => panic!("the output of the job was expected"),
    }
    let outcome = SealingJobManagerHttpClient::get_job_output_outcome::<C1>(&response(
        200,
        "{\"output\":\"\",\"job_type\":\"C1\"}",
    ));
    match outcome {
        Ok(Some(JobOutput(Ok(output)))) => assert_eq!(output, C1Output(vec![])),
        _ => panic!("the output of the job was expected"),
    }
}

#[test]
fn get_job_output_outcome_errors() {
    let outcome = SealingJobManagerHttpClient::get_job_output_outcome::<C2>(&response(500, "oops"));
    assert!(matches!(outcome, Err(Error::FetchOutput(text)) if text == "oops"));

    let outcome = SealingJobManagerHttpClient::get_job_output_outcome::<C2>(&response(
        200,
        "{\"job_type\":\"C1\",\"output\":\"AQID\"}",
    ));
    assert!(matches!(
        outcome,
        Err(Error::WrongVariant(WrongVariant { expected: JobType::C2, found: JobType::C1 }))
    ));

    let outcome = SealingJobManagerHttpClient::get_job_output_outcome::<C2>(&response(424, "x"));
    assert!(matches!(outcome, Err(Error::Json(_))));

    let outcome =
        SealingJobManagerHttpClient::get_job_output_outcome::<C2>(&response(424, "{\"err\":5}"));
    assert!(matches!(outcome, Err(Error::Shape)));

    let outcome = SealingJobManagerHttpClient::get_job_output_outcome::<C2>(&response(200, "["));
    assert!(matches!(outcome, Err(Error::Json(_))));

    let outcome = SealingJobManagerHttpClient::get_job_output_outcome::<C2>(&response(
        200,
        "{\"job_type\":\"C2\",\"output\":\"?\"}",
    ));
    assert!(matches!(outcome, Err(Error::Shape)));
}

#[test]
fn fail_job_posts_key_kind_and_message() {
    let request = client().fail_job::<PC2>(StorageProviderId(1111), SectorId(123123), "disk full");
    assert_eq!(request.method, Method::Post);
    assert_eq!(request.uri, "http://jobs.example:8080/job/fail");
    assert_eq!(request.content_type, "application/json");
    assert_eq!(
        request.body.as_deref(),
        Some(
            "{\"storage_provider_id\":1111,\"sector_id\":123123,\"job_type\":\"PC2\",\
             \"error\":\"disk full\"}"
        )
    );
}

#[test]
fn fail_job_outcome_goes_by_the_status() {
    assert!(SealingJobManagerHttpClient::fail_job_outcome(&response(200, "")).is_ok());
    assert!(matches!(
        SealingJobManagerHttpClient::fail_job_outcome(&response(404, "unknown job")),
        Err(Error::FailJob(text)) if text == "unknown job"
    ));
    assert!(matches!(
        SealingJobManagerHttpClient::fail_job_outcome(&response(500, "")),
        Err(Error::FailJob(text)) if text.is_empty()
    ));
    assert!(matches!(
        SealingJobManagerHttpClient::fail_job_outcome(&response(204, "gone")),
        Err(Error::FailJob(text)) if text == "gone"
    ));
}

#[test]
fn get_job_state_puts_the_key_into_the_path() {
    let request = client().get_job_state::<PC>(StorageProviderId(u64::MAX), SectorId(0));
    assert_eq!(request.method, Method::Get);
    assert_eq!(
        request.uri,
        "http://jobs.example:8080/job/state/18446744073709551615/0/PC"
    );
    assert_eq!(request.body, None);
}

#[test]
fn get_job_state_outcome_cases() {
    for (name, state) in [
        ("Pending", JobState::Pending),
        ("Done", JobState::Done),
        ("Failed", JobState::Failed),
    ] {
        let body = format!("{{\"state\":\"{}\"}}", name);
        let outcome = SealingJobManagerHttpClient::get_job_state_outcome(&response(200, &body));
        assert_eq!(outcome.unwrap(), Some(state));
    }
    let outcome = SealingJobManagerHttpClient::get_job_state_outcome(&response(204, ""));
    assert_eq!(outcome.unwrap(), None);
    let outcome = SealingJobManagerHttpClient::get_job_state_outcome(&response(500, "boom"));
    assert!(matches!(outcome, Err(Error::GetState(text)) if text == "boom"));
    let outcome = SealingJobManagerHttpClient::get_job_state_outcome(&response(424, "boom"));
    assert!(matches!(outcome, Err(Error::GetState(text)) if text == "boom"));
    let outcome = SealingJobManagerHttpClient::get_job_state_outcome(&response(200, "{"));
    assert!(matches!(outcome, Err(Error::Json(_))));
    let outcome =
        SealingJobManagerHttpClient::get_job_state_outcome(&response(200, "{\"state\":\"Gone\"}"));
    assert!(matches!(outcome, Err(Error::Shape)));
}

#[test]
fn errors_say_what_happened() {
    assert_eq!(Error::Json("expected value".to_string()).to_string(), "expected value");
    assert_eq!(Error::Shape.to_string(), "Unexpected shape of the JSON body");
    assert_eq!(
        Error::WrongVariant(WrongVariant { expected: JobType::PC1, found: JobType::C2 })
            .to_string(),
        "Invalid job C2, expected PC1"
    );
    assert_eq!(Error::TooManyJobs { asked: 2, sent: 10 }.to_string(), "Too many jobs(10) for 2");
    assert_eq!(Error::JobNotExist.to_string(), "Job doesn't exist");
    assert_eq!(Error::NotEnoughJobs(12).to_string(), "Not enough jobs(12)");
    assert_eq!(Error::NotEnoughJobs(0).to_string(), "Not enough jobs(0)");
    assert_eq!(Error::FetchJobs("a".to_string()).to_string(), "Error while fetching jobs: a");
    assert_eq!(
        Error::SubmitOutput("b".to_string()).to_string(),
        "Error while submitting output: b"
    );
    assert_eq!(Error::FetchOutput("c".to_string()).to_string(), "Error while fetching output: c");
    assert_eq!(
        Error::FailJob("d".to_string()).to_string(),
        "Error while submitting job failure: d"
    );
    assert_eq!(
        Error::GetState("e".to_string()).to_string(),
        "Error while fetching job state: e"
    );
}

#[test]
fn a_body_is_carried_in_the_error_as_it_came() {
    let body = "  <html>\n\u{1F600} \"quoted\" \\ </html>  ";
    assert!(matches!(
        SealingJobManagerHttpClient::add_job_outcome(&response(502, body)),
        Err(Error::FetchJobs(text)) if text == body
    ));
    assert!(matches!(
        SealingJobManagerHttpClient::get_job_state_outcome(&response(502, body)),
        Err(Error::GetState(text)) if text == body
    ));
}

#[test]
fn pipeline_over_the_wire() {
    // a producer adds a job, a worker is handed the same job
    let added = client().add_job(PC1 { input: pc1_input() });
    let body = format!("{{\"jobs\":[{}]}}", added.body.unwrap());
    let jobs = SealingJobManagerHttpClient::request_jobs_outcome::<PC1>(1, &response(200, &body))
        .unwrap();
    assert_eq!(jobs, vec![PC1 { input: pc1_input() }]);
    assert_eq!(jobs[0].sector_id(), SectorId(123123));
    assert_eq!(jobs[0].storage_provider_id(), StorageProviderId(1111));
    assert_eq!(jobs[0].registered_proof(), RegisteredSealProof::StackedDrg2KiBV1);
}

#[test]
fn request_jobs_outcome_hands_out_no_more_than_asked_for() {
    let body = format!("{{\"jobs\":[{},{},{}]}}", PC1_JOB, PC1_JOB, PC1_JOB);
    let jobs = SealingJobManagerHttpClient::request_jobs_outcome::<PC1>(3, &response(200, &body))
        .unwrap();
    assert_eq!(jobs.len(), 3);
    let jobs = SealingJobManagerHttpClient::request_jobs_outcome::<PC1>(4, &response(200, &body))
        .unwrap();
    assert_eq!(jobs.len(), 3);
    let outcome =
        SealingJobManagerHttpClient::request_jobs_outcome::<PC1>(2, &response(200, &body));
    assert!(matches!(outcome, Err(Error::TooManyJobs { asked: 2, sent: 3 })));
    let outcome =
        SealingJobManagerHttpClient::request_jobs_outcome::<PC1>(0, &response(200, &body));
    assert!(matches!(outcome, Err(Error::TooManyJobs { asked: 0, sent: 3 })));
    // a job of another kind is reported before the count
    let outcome =
        SealingJobManagerHttpClient::request_jobs_outcome::<PC2>(2, &response(200, &body));
    assert!(matches!(
        outcome,
        Err(Error::WrongVariant(WrongVariant { expected: JobType::PC2, found: JobType::PC1 }))
    ));
}
