use sealing_jobs::envelope::{
    Enveloped, JobHttp, JobOutputHttp, JobState, WrongVariant,
};
use sealing_jobs::filecoin::{
    ChainEpoch, Commitment, PieceInfo, RegisteredSealProof, SectorId, StorageProviderId, Ticket,
    UnpaddedBytesAmount,
};
use sealing_jobs::job::{Job, JobId, JobType};
use sealing_jobs::sealing::{
    C1Input, C1Output, C2Input, C2Output, PC1Input, PC1Output, PC2Input, PC2Output, PCOutput,
    SealingJob, C1, C2, PC, PC1, PC2,
};

fn pc1_input() -> PC1Input {
    PC1Input {
        registered_proof: RegisteredSealProof::StackedDrg2KiBV1,
        storage_provider_id: StorageProviderId(1111),
        sector_id: SectorId(123123),
        ticket: Ticket([1; 32]),
        ticket_epoch: ChainEpoch(1100),
    }
}

fn pc2_input() -> PC2Input {
    PC2Input {
        pc1_output: PC1Output(vec![1, 2, 3]),
        sector_id: SectorId(7),
        storage_provider_id: StorageProviderId(8),
        registered_proof: RegisteredSealProof::StackedDrg8MiBV1,
    }
}

fn c1_input() -> C1Input {
    C1Input {
        pc2_output: PC2Output(vec![4, 5]),
        storage_provider_id: StorageProviderId(9),
        sector_id: SectorId(10),
        ticket: Ticket([2; 32]),
        seed: Ticket([3; 32]),
        piece_infos: vec![PieceInfo {
            commitment: Commitment([4; 32]),
            size: UnpaddedBytesAmount(2032),
        }],
        registered_proof: RegisteredSealProof::StackedDrg32GiBV1_1,
    }
}

fn c2_input() -> C2Input {
    C2Input {
        c1_output: C1Output(vec![6]),
        storage_provider_id: StorageProviderId(11),
        sector_id: SectorId(12),
        registered_proof: RegisteredSealProof::StackedDrg64GiBV1_1,
    }
}

#[test]
fn job_type_names_and_numbers() {
    assert_eq!(JobType::PC1.to_string(), "PC1");
    assert_eq!(JobType::PC2.to_string(), "PC2");
    assert_eq!(JobType::C1.to_string(), "C1");
    assert_eq!(JobType::C2.to_string(), "C2");
    assert_eq!(JobType::PC.to_string(), "PC");
    assert_eq!(u8::from(JobType::PC1), 1);
    assert_eq!(u8::from(JobType::PC2), 2);
    assert_eq!(u8::from(JobType::C1), 3);
    assert_eq!(u8::from(JobType::C2), 4);
    assert_eq!(u8::from(JobType::PC), 5);
}

#[test]
fn job_type_is_found_again_from_name_and_number() {
    for kind in [JobType::PC1, JobType::PC2, JobType::C1, JobType::C2, JobType::PC] {
        assert_eq!(JobType::from_u8(u8::from(kind)), Some(kind));
        assert_eq!(JobType::from_name(&kind.to_string()), Some(kind));
    }
    assert_eq!(JobType::from_u8(0), None);
    assert_eq!(JobType::from_u8(6), None);
    assert_eq!(JobType::from_name("pc1"), None);
    assert_eq!(JobType::from_name(""), None);
}

#[test]
fn job_ids_are_fresh() {
    assert_ne!(JobId::new(), JobId::new());
    assert_eq!(JobId::default(), JobId::default());
    let id = JobId::new();
    assert_eq!(uuid::Uuid::from(id), id.0);
    assert_eq!(JobId::default().0, uuid::Uuid::nil());
    assert_eq!(JobId::default().0.as_bytes(), &[0u8; 16]);
}

#[test]
fn every_kind_reports_its_type_and_key() {
    assert_eq!(PC1::job_type(), JobType::PC1);
    assert_eq!(PC2::job_type(), JobType::PC2);
    assert_eq!(C1::job_type(), JobType::C1);
    assert_eq!(C2::job_type(), JobType::C2);
    assert_eq!(PC::job_type(), JobType::PC);

    let job = PC2 { input: pc2_input() };
    assert_eq!(job.sector_id(), SectorId(7));
    assert_eq!(job.storage_provider_id(), StorageProviderId(8));
    assert_eq!(job.registered_proof(), RegisteredSealProof::StackedDrg8MiBV1);

    let job = C1 { input: c1_input() };
    assert_eq!(job.sector_id(), SectorId(10));
    assert_eq!(job.storage_provider_id(), StorageProviderId(9));
    assert_eq!(job.registered_proof(), RegisteredSealProof::StackedDrg32GiBV1_1);

    let job = C2 { input: c2_input() };
    assert_eq!(job.sector_id(), SectorId(12));
    assert_eq!(job.storage_provider_id(), StorageProviderId(11));
    assert_eq!(job.registered_proof(), RegisteredSealProof::StackedDrg64GiBV1_1);

    let job = PC { input: pc1_input() };
    assert_eq!(job.sector_id(), SectorId(123123));
    assert_eq!(job.storage_provider_id(), StorageProviderId(1111));
    assert_eq!(job.registered_proof(), RegisteredSealProof::StackedDrg2KiBV1);
}

#[test]
fn into_input_hands_out_the_input() {
    assert_eq!(PC1 { input: pc1_input() }.into_input(), pc1_input());
    assert_eq!(PC2 { input: pc2_input() }.into_input(), pc2_input());
    assert_eq!(C1 { input: c1_input() }.into_input(), c1_input());
    assert_eq!(C2 { input: c2_input() }.into_input(), c2_input());
    assert_eq!(PC { input: pc1_input() }.into_input(), pc1_input());
}

#[test]
fn outputs_wrap_bytes() {
    let output = PC1Output::from(vec![1u8, 2, 3]);
    assert_eq!(output.as_ref(), &[1u8, 2, 3]);
    assert_eq!(PC2Output::from(vec![9u8]).as_ref(), &[9u8]);
    assert_eq!(PCOutput::from(vec![8u8]).as_ref(), &[8u8]);
    assert_eq!(C1Output::from(vec![7u8]).as_ref(), &[7u8]);
    assert_eq!(C2Output::from(vec![6u8]).as_ref(), &[6u8]);
    assert_eq!(C2Output::default().as_ref(), &[] as &[u8]);
}

#[test]
fn envelope_round_trip_for_every_kind() {
    let job = PC1 { input: pc1_input() };
    assert_eq!(PC1::recover(job.clone().erase()), Ok(job.clone()));
    assert_eq!(PC1::recover(JobHttp::from(job.clone())), Ok(job));

    let job = PC2 { input: pc2_input() };
    assert_eq!(PC2::recover(job.clone().erase()), Ok(job.clone()));
    assert_eq!(PC2::recover(JobHttp::from(job.clone())), Ok(job));

    let job = C1 { input: c1_input() };
    assert_eq!(C1::recover(job.clone().erase()), Ok(job.clone()));
    assert_eq!(C1::recover(JobHttp::from(job.clone())), Ok(job));

    let job = C2 { input: c2_input() };
    assert_eq!(C2::recover(job.clone().erase()), Ok(job.clone()));
    assert_eq!(C2::recover(JobHttp::from(job.clone())), Ok(job));

    let job = PC { input: pc1_input() };
    assert_eq!(PC::recover(job.clone().erase()), Ok(job.clone()));
    assert_eq!(PC::recover(JobHttp::from(job.clone())), Ok(job));
}

#[test]
fn output_envelope_round_trip_for_every_kind() {
    let output = PC1Output(vec![1, 2]);
    assert_eq!(PC1::recover_output(PC1::erase_output(output.clone())), Ok(output.clone()));
    assert_eq!(PC1::recover_output(JobOutputHttp::from(output.clone())), Ok(output));
    let output = PC2Output(vec![3]);
    assert_eq!(PC2::recover_output(PC2::erase_output(output.clone())), Ok(output));
    let output = C1Output(vec![4]);
    assert_eq!(C1::recover_output(C1::erase_output(output.clone())), Ok(output));
    let output = C2Output(vec![5]);
    assert_eq!(C2::recover_output(C2::erase_output(output.clone())), Ok(output));
    let output = PCOutput(vec![]);
    assert_eq!(PC::recover_output(PC::erase_output(output.clone())), Ok(output));
}

#[test]
fn envelope_of_another_kind_is_a_typed_error() {
    let envelope = PC { input: pc1_input() }.erase();
    assert_eq!(
        PC1::recover(envelope),
        Err(WrongVariant { expected: JobType::PC1, found: JobType::PC })
    );
    let envelope = PC1 { input: pc1_input() }.erase();
    assert_eq!(
        C2::recover(envelope),
        Err(WrongVariant { expected: JobType::C2, found: JobType::PC1 })
    );
    assert_eq!(
        PC::recover_output(JobOutputHttp::PC2(PC2Output(vec![1]))),
        Err(WrongVariant { expected: JobType::PC, found: JobType::PC2 })
    );
    assert_eq!(
        C1::recover_output(JobOutputHttp::of(JobType::C2, vec![1])),
        Err(WrongVariant { expected: JobType::C1, found: JobType::C2 })
    );
}

#[test]
fn envelopes_know_their_kind() {
    assert_eq!(PC1 { input: pc1_input() }.erase().job_type(), JobType::PC1);
    assert_eq!(C1 { input: c1_input() }.erase().job_type(), JobType::C1);
    assert_eq!(JobOutputHttp::of(JobType::PC, vec![1, 2]).job_type(), JobType::PC);
    assert_eq!(JobOutputHttp::of(JobType::PC, vec![1, 2]), JobOutputHttp::PC(PCOutput(vec![1, 2])));
    assert_eq!(JobOutputHttp::of(JobType::C2, vec![3]).as_ref(), &[3u8]);
}

#[test]
fn full_pipeline_scenario() {
    let job = PC1 { input: pc1_input() };
    let envelope: JobHttp = job.erase();
    let recovered = PC1::recover(envelope).unwrap();
    assert_eq!(recovered.sector_id(), SectorId(123123));
    assert_eq!(recovered.storage_provider_id(), StorageProviderId(1111));
}

#[test]
fn job_state_names_and_finality() {
    assert_eq!(JobState::Pending.to_string(), "Pending");
    assert_eq!(JobState::Done.to_string(), "Done");
    assert_eq!(JobState::Failed.to_string(), "Failed");
    assert_eq!(JobState::from_name("Pending"), Some(JobState::Pending));
    assert_eq!(JobState::from_name("Done"), Some(JobState::Done));
    assert_eq!(JobState::from_name("Failed"), Some(JobState::Failed));
    assert_eq!(JobState::from_name("done"), None);
    assert!(!JobState::Pending.is_terminal());
    assert!(JobState::Done.is_terminal());
    assert!(JobState::Failed.is_terminal());
}

#[test]
fn fresh_job_ids_are_random_identifiers_of_version_four() {
    for _ in 0..200 {
        let id = JobId::new();
        let bytes = id.0.as_bytes();
        assert_eq!(bytes.len(), 16);
        assert_eq!(bytes[6] >> 4, 4);
        assert_eq!(bytes[8] >> 6, 2);
        assert_eq!(id.0.get_version_num(), 4);
        assert_ne!(id, JobId::default());
    }
}
