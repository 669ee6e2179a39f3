use sealing_jobs::envelope::{
    FailJob, GetSealingJobsResponse, JobHttp, JobOutputHttp, JobState, SubmitSealingJobOutput,
};
use sealing_jobs::filecoin::{
    ChainEpoch, Commitment, PieceInfo, RegisteredSealProof, SectorId, StorageProviderId, Ticket,
    UnpaddedBytesAmount,
};
use sealing_jobs::job::JobType;
use sealing_jobs::json::{parse, print, Json};
use sealing_jobs::sealing::{
    C1Input, C1Output, C2Input, PC1Input, PC1Output, PC2Input, PC2Output, PCOutput, C1, C2, PC, PC1,
    PC2,
};
use sealing_jobs::wire::{
    decode_bytes, decode_c1_input, decode_c2_input, decode_failure, decode_job, decode_jobs,
    decode_output, decode_pc1_input, decode_pc2_input, decode_piece, decode_state, encode_bytes,
    encode_c1_input, encode_c2_input, encode_fail, encode_job, encode_output, encode_pc1_input,
    encode_pc2_input, encode_piece, encode_submit, proof_from_name, proof_to_name, read_i64,
    read_u64,
};

const ALL_PROOFS: [RegisteredSealProof; 10] = [
    RegisteredSealProof::StackedDrg2KiBV1,
    RegisteredSealProof::StackedDrg8MiBV1,
    RegisteredSealProof::StackedDrg512MiBV1,
    RegisteredSealProof::StackedDrg32GiBV1,
    RegisteredSealProof::StackedDrg64GiBV1,
    RegisteredSealProof::StackedDrg2KiBV1_1,
    RegisteredSealProof::StackedDrg8MiBV1_1,
    RegisteredSealProof::StackedDrg512MiBV1_1,
    RegisteredSealProof::StackedDrg32GiBV1_1,
    RegisteredSealProof::StackedDrg64GiBV1_1,
];

fn pc1_input() -> PC1Input {
    PC1Input {
        registered_proof: RegisteredSealProof::StackedDrg2KiBV1,
        storage_provider_id: StorageProviderId(1111),
        sector_id: SectorId(123123),
        ticket: Ticket([1; 32]),
        ticket_epoch: ChainEpoch(1100),
    }
}

fn c1_input() -> C1Input {
    C1Input {
        pc2_output: PC2Output(vec![4, 5]),
        storage_provider_id: StorageProviderId(9),
        sector_id: SectorId(10),
        ticket: Ticket([2; 32]),
        seed: Ticket([3; 32]),
        piece_infos: vec![
            PieceInfo { commitment: Commitment([4; 32]), size: UnpaddedBytesAmount(2032) },
            PieceInfo { commitment: Commitment([0; 32]), size: UnpaddedBytesAmount(0) },
        ],
        registered_proof: RegisteredSealProof::StackedDrg32GiBV1_1,
    }
}

#[test]
fn test_job_deserialization() {
    let data = r#"
        {
            "registered_proof": "StackedDrg2KiBV1",
            "storage_provider_id": 1111,
            "sector_id": 123123,
            "ticket": "AQEBAQEBAQEBAQEBAQEBAQEBAQEBAQEBAQEBAQEBAQE=",
            "ticket_epoch": 1100
        }"#;
    let tree = parse(data).unwrap();
    let input: PC1Input = decode_pc1_input(&tree).unwrap();
    let expected_input = PC1Input {
        registered_proof: RegisteredSealProof::StackedDrg2KiBV1,
        storage_provider_id: StorageProviderId(1111),
        sector_id: SectorId(123123),
        ticket: Ticket([1; 32]),
        ticket_epoch: ChainEpoch(1100),
    };
    assert_eq!(input, expected_input);
}

#[test]
fn pc1_input_is_written_field_by_field() {
    let text = print(&encode_pc1_input(&pc1_input()));
    assert_eq!(
        text,
        "{\"registered_proof\":\"StackedDrg2KiBV1\",\"storage_provider_id\":1111,\
         \"sector_id\":123123,\"ticket\":\"AQEBAQEBAQEBAQEBAQEBAQEBAQEBAQEBAQEBAQEBAQE=\",\
         \"ticket_epoch\":1100}"
    );
}

#[test]
fn negative_epoch_is_written_and_read() {
    let mut input = pc1_input();
    input.ticket_epoch = ChainEpoch(-5);
    let text = print(&encode_pc1_input(&input));
    assert!(text.ends_with("\"ticket_epoch\":-5}"));
    assert_eq!(decode_pc1_input(&parse(&text).unwrap()), Some(input));
}

#[test]
fn job_envelope_is_tagged_by_kind() {
    let envelope = JobHttp::PC1(PC1 { input: pc1_input() });
    assert_eq!(
        print(&encode_job(&envelope)),
        "{\"job_type\":\"PC1\",\"input\":{\"registered_proof\":\"StackedDrg2KiBV1\",\
         \"storage_provider_id\":1111,\"sector_id\":123123,\
         \"ticket\":\"AQEBAQEBAQEBAQEBAQEBAQEBAQEBAQEBAQEBAQEBAQE=\",\"ticket_epoch\":1100}}"
    );
    let envelope = JobHttp::PC(PC { input: pc1_input() });
    assert!(print(&encode_job(&envelope)).starts_with("{\"job_type\":\"PC\",\"input\":{"));
}

#[test]
fn pc2_and_c2_inputs_are_written_field_by_field() {
    let input = PC2Input {
        pc1_output: PC1Output(vec![1, 2, 3]),
        sector_id: SectorId(7),
        storage_provider_id: StorageProviderId(8),
        registered_proof: RegisteredSealProof::StackedDrg8MiBV1,
    };
    assert_eq!(
        print(&encode_pc2_input(&input)),
        "{\"pc1_output\":\"AQID\",\"sector_id\":7,\"storage_provider_id\":8,\
         \"registered_proof\":\"StackedDrg8MiBV1\"}"
    );
    let input = C2Input {
        c1_output: C1Output(vec![255]),
        storage_provider_id: StorageProviderId(11),
        sector_id: SectorId(12),
        registered_proof: RegisteredSealProof::StackedDrg64GiBV1_1,
    };
    assert_eq!(
        print(&encode_c2_input(&input)),
        "{\"c1_output\":\"/w==\",\"storage_provider_id\":11,\"sector_id\":12,\
         \"registered_proof\":\"StackedDrg64GiBV1_1\"}"
    );
}

#[test]
fn c1_input_is_written_with_its_pieces() {
    let mut input = c1_input();
    input.piece_infos.truncate(1);
    assert_eq!(
        print(&encode_c1_input(&input)),
        "{\"pc2_output\":\"BAU=\",\"storage_provider_id\":9,\"sector_id\":10,\
         \"ticket\":\"AgICAgICAgICAgICAgICAgICAgICAgICAgICAgICAgI=\",\
         \"seed\":\"AwMDAwMDAwMDAwMDAwMDAwMDAwMDAwMDAwMDAwMDAwM=\",\
         \"piece_infos\":[{\"commitment\":\"BAQEBAQEBAQEBAQEBAQEBAQEBAQEBAQEBAQEBAQEBAQ=\",\
         \"size\":2032}],\"registered_proof\":\"StackedDrg32GiBV1_1\"}"
    );
}

#[test]
fn every_job_is_read_back_from_its_text() {
    let jobs = vec![
        JobHttp::PC1(PC1 { input: pc1_input() }),
        JobHttp::PC2(PC2 {
            input: PC2Input {
                pc1_output: PC1Output(vec![1, 2, 3, 4]),
                sector_id: SectorId(u64::MAX),
                storage_provider_id: StorageProviderId(0),
                registered_proof: RegisteredSealProof::StackedDrg512MiBV1,
            },
        }),
        JobHttp::C1(C1 { input: c1_input() }),
        JobHttp::C2(C2 {
            input: C2Input {
                c1_output: C1Output(vec![]),
                storage_provider_id: StorageProviderId(11),
                sector_id: SectorId(12),
                registered_proof: RegisteredSealProof::StackedDrg64GiBV1,
            },
        }),
        JobHttp::PC(PC { input: pc1_input() }),
    ];
    for job in jobs {
        let text = print(&encode_job(&job));
        let back = decode_job(&parse(&text).unwrap());
        assert_eq!(back, Some(job));
    }
}

#[test]
fn members_that_are_not_known_are_ignored_and_order_is_free() {
    let text = "{\"extra\":[1.5,null,true],\"input\":{\"ticket_epoch\":1100,\
        \"ticket\":\"AQEBAQEBAQEBAQEBAQEBAQEBAQEBAQEBAQEBAQEBAQE=\",\"sector_id\":123123,\
        \"storage_provider_id\":1111,\"registered_proof\":\"StackedDrg2KiBV1\",\"more\":{}},\
        \"job_type\":\"PC1\"}";
    assert_eq!(
        decode_job(&parse(text).unwrap()),
        Some(JobHttp::PC1(PC1 { input: pc1_input() }))
    );
}

#[test]
fn ticket_without_padding_is_read() {
    let text = "{\"registered_proof\":\"StackedDrg2KiBV1\",\"storage_provider_id\":1111,\
        \"sector_id\":123123,\"ticket\":\"AQEBAQEBAQEBAQEBAQEBAQEBAQEBAQEBAQEBAQEBAQE\",\
        \"ticket_epoch\":1100}";
    assert_eq!(decode_pc1_input(&parse(text).unwrap()), Some(pc1_input()));
}

#[test]
fn malformed_inputs_are_refused() {
    let cases = [
        // not an object
        "[1,2,3]",
        // a member is missing
        "{\"registered_proof\":\"StackedDrg2KiBV1\",\"storage_provider_id\":1111,\
         \"sector_id\":123123,\"ticket\":\"AQEBAQEBAQEBAQEBAQEBAQEBAQEBAQEBAQEBAQEBAQE=\"}",
        // a proof variant that does not exist
        "{\"registered_proof\":\"StackedDrg1KiBV1\",\"storage_provider_id\":1111,\
         \"sector_id\":123123,\"ticket\":\"AQEBAQEBAQEBAQEBAQEBAQEBAQEBAQEBAQEBAQEBAQE=\",\
         \"ticket_epoch\":1100}",
        // a negative identifier
        "{\"registered_proof\":\"StackedDrg2KiBV1\",\"storage_provider_id\":-1,\
         \"sector_id\":123123,\"ticket\":\"AQEBAQEBAQEBAQEBAQEBAQEBAQEBAQEBAQEBAQEBAQE=\",\
         \"ticket_epoch\":1100}",
        // an identifier that is no integer
        "{\"registered_proof\":\"StackedDrg2KiBV1\",\"storage_provider_id\":1111.5,\
         \"sector_id\":123123,\"ticket\":\"AQEBAQEBAQEBAQEBAQEBAQEBAQEBAQEBAQEBAQEBAQE=\",\
         \"ticket_epoch\":1100}",
        // a ticket of 31 bytes
        "{\"registered_proof\":\"StackedDrg2KiBV1\",\"storage_provider_id\":1111,\
         \"sector_id\":123123,\"ticket\":\"AQEBAQEBAQEBAQEBAQEBAQEBAQEBAQEBAQEBAQEBAQ==\",\
         \"ticket_epoch\":1100}",
        // a ticket that is no base64
        "{\"registered_proof\":\"StackedDrg2KiBV1\",\"storage_provider_id\":1111,\
         \"sector_id\":123123,\"ticket\":\"!!!\",\"ticket_epoch\":1100}",
        // an epoch beyond 64 bits with sign
        "{\"registered_proof\":\"StackedDrg2KiBV1\",\"storage_provider_id\":1111,\
         \"sector_id\":123123,\"ticket\":\"AQEBAQEBAQEBAQEBAQEBAQEBAQEBAQEBAQEBAQEBAQE=\",\
         \"ticket_epoch\":9223372036854775808}",
    ];
    for text in cases {
        assert_eq!(decode_pc1_input(&parse(text).unwrap()), None, "{}", text);
    }
}

#[test]
fn numbers_at_the_limits_are_read() {
    let tree = parse("{\"a\":18446744073709551615,\"b\":-9223372036854775808,\"c\":0}").unwrap();
    assert_eq!(read_u64(&tree, "a"), Some(u64::MAX));
    assert_eq!(read_i64(&tree, "a"), None);
    assert_eq!(read_i64(&tree, "b"), Some(i64::MIN));
    assert_eq!(read_u64(&tree, "b"), None);
    assert_eq!(read_u64(&tree, "c"), Some(0));
    assert_eq!(read_i64(&tree, "c"), Some(0));
    assert_eq!(read_u64(&tree, "d"), None);
}

#[test]
fn the_last_of_two_members_of_one_name_counts() {
    let tree = Json::Object(vec![
        ("a".to_string(), Json::Unsigned(1)),
        ("a".to_string(), Json::Unsigned(2)),
    ]);
    assert_eq!(read_u64(&tree, "a"), Some(2));
    let tree = parse("{\"a\":1,\"a\":2}").unwrap();
    assert_eq!(read_u64(&tree, "a"), Some(2));
}

#[test]
fn job_of_unknown_kind_is_refused() {
    let text = "{\"job_type\":\"PC3\",\"input\":{}}";
    assert_eq!(decode_job(&parse(text).unwrap()), None);
    let text = "{\"input\":{}}";
    assert_eq!(decode_job(&parse(text).unwrap()), None);
    let text = "{\"job_type\":\"PC1\"}";
    assert_eq!(decode_job(&parse(text).unwrap()), None);
}

#[test]
fn input_of_another_kind_is_refused() {
    let text = print(&encode_job(&JobHttp::PC1(PC1 { input: pc1_input() })));
    let text = text.replace("\"job_type\":\"PC1\"", "\"job_type\":\"C2\"");
    assert_eq!(decode_job(&parse(&text).unwrap()), None);
}

#[test]
fn jobs_are_read_in_order() {
    let one = print(&encode_job(&JobHttp::PC1(PC1 { input: pc1_input() })));
    let mut other_input = pc1_input();
    other_input.sector_id = SectorId(5);
    let two = print(&encode_job(&JobHttp::PC1(PC1 { input: other_input.clone() })));
    let text = format!("{{\"jobs\":[{},{}]}}", one, two);
    assert_eq!(
        decode_jobs(&parse(&text).unwrap()),
        Some(GetSealingJobsResponse {
            jobs: vec![
                JobHttp::PC1(PC1 { input: pc1_input() }),
                JobHttp::PC1(PC1 { input: other_input }),
            ]
        })
    );
    assert_eq!(
        decode_jobs(&parse("{\"jobs\":[]}").unwrap()),
        Some(GetSealingJobsResponse { jobs: vec![] })
    );
    assert_eq!(decode_jobs(&parse("{\"jobs\":{}}").unwrap()), None);
    assert_eq!(decode_jobs(&parse("{}").unwrap()), None);
    let text = format!("{{\"jobs\":[{},7]}}", one);
    assert_eq!(decode_jobs(&parse(&text).unwrap()), None);
}

#[test]
fn output_envelope_nests_the_output() {
    let envelope = JobOutputHttp::PC1(PC1Output(vec![1, 2, 3]));
    let text = print(&encode_output(&envelope));
    assert_eq!(text, "{\"job_type\":\"PC1\",\"output\":\"AQID\"}");
    assert_eq!(decode_output(&parse(&text).unwrap()), Some(envelope));
    assert_eq!(
        decode_output(&parse("{\"job_type\":\"PC\",\"output\":\"\"}").unwrap()),
        Some(JobOutputHttp::PC(PCOutput(vec![])))
    );
    assert_eq!(decode_output(&parse("{\"job_type\":\"PC\"}").unwrap()), None);
    assert_eq!(decode_output(&parse("{\"job_type\":\"PC\",\"output\":5}").unwrap()), None);
}

#[test]
fn submit_body_flattens_the_envelope() {
    let body = SubmitSealingJobOutput {
        storage_provider_id: StorageProviderId(1111),
        sector_id: SectorId(123123),
        job: JobOutputHttp::C2(sealing_jobs::sealing::C2Output(vec![0, 255])),
    };
    assert_eq!(
        print(&encode_submit(&body)),
        "{\"storage_provider_id\":1111,\"sector_id\":123123,\"job_type\":\"C2\",\"output\":\"AP8=\"}"
    );
}

#[test]
fn fail_body_names_the_job_and_the_error() {
    let body = FailJob {
        storage_provider_id: StorageProviderId(1),
        sector_id: SectorId(2),
        job_type: JobType::C1,
        error: "out of \"memory\"".to_string(),
    };
    assert_eq!(
        print(&encode_fail(&body)),
        "{\"storage_provider_id\":1,\"sector_id\":2,\"job_type\":\"C1\",\
         \"error\":\"out of \\\"memory\\\"\"}"
    );
}

#[test]
fn state_and_failure_are_read() {
    assert_eq!(decode_state(&parse("{\"state\":\"Pending\"}").unwrap()), Some(JobState::Pending));
    assert_eq!(decode_state(&parse("{\"state\":\"Done\"}").unwrap()), Some(JobState::Done));
    assert_eq!(decode_state(&parse("{\"state\":\"Failed\"}").unwrap()), Some(JobState::Failed));
    assert_eq!(decode_state(&parse("{\"state\":\"Lost\"}").unwrap()), None);
    assert_eq!(decode_state(&parse("{\"state\":1}").unwrap()), None);
    assert_eq!(decode_state(&parse("{}").unwrap()), None);
    assert_eq!(
        decode_failure(&parse("{\"err\":\"bad proof\"}").unwrap()),
        Some("bad proof".to_string())
    );
    assert_eq!(decode_failure(&parse("{\"err\":null}").unwrap()), None);
    assert_eq!(decode_failure(&parse("{\"error\":\"x\"}").unwrap()), None);
}

#[test]
fn bytes_travel_as_base64() {
    assert_eq!(encode_bytes(&[]), Json::Text("".to_string()));
    assert_eq!(encode_bytes(b"f"), Json::Text("Zg==".to_string()));
    assert_eq!(encode_bytes(b"fo"), Json::Text("Zm8=".to_string()));
    assert_eq!(encode_bytes(b"foo"), Json::Text("Zm9v".to_string()));
    assert_eq!(encode_bytes(&[0xfb, 0xff]), Json::Text("+/8=".to_string()));
    assert_eq!(decode_bytes(&Json::Text("Zm9vYg==".to_string())), Some(b"foob".to_vec()));
    assert_eq!(decode_bytes(&Json::Text("Zm9vYg".to_string())), Some(b"foob".to_vec()));
    assert_eq!(decode_bytes(&Json::Text("+/8=".to_string())), Some(vec![0xfb, 0xff]));
    assert_eq!(decode_bytes(&Json::Text("-_8=".to_string())), None);
    assert_eq!(decode_bytes(&Json::Text("Zm9vY".to_string())), None);
    assert_eq!(decode_bytes(&Json::Unsigned(5)), None);
}

#[test]
fn pieces_are_written_and_read() {
    let piece = PieceInfo { commitment: Commitment([4; 32]), size: UnpaddedBytesAmount(2032) };
    let text = print(&encode_piece(&piece));
    assert_eq!(
        text,
        "{\"commitment\":\"BAQEBAQEBAQEBAQEBAQEBAQEBAQEBAQEBAQEBAQEBAQ=\",\"size\":2032}"
    );
    assert_eq!(decode_piece(&parse(&text).unwrap()), Some(piece));
    assert_eq!(decode_piece(&parse("{\"commitment\":\"BAQ=\",\"size\":1}").unwrap()), None);
}

#[test]
fn other_inputs_are_read_back() {
    let input = c1_input();
    assert_eq!(decode_c1_input(&parse(&print(&encode_c1_input(&input))).unwrap()), Some(input));
    let input = PC2Input {
        pc1_output: PC1Output(vec![9; 100]),
        sector_id: SectorId(1),
        storage_provider_id: StorageProviderId(2),
        registered_proof: RegisteredSealProof::StackedDrg2KiBV1_1,
    };
    assert_eq!(decode_pc2_input(&parse(&print(&encode_pc2_input(&input))).unwrap()), Some(input));
    let input = C2Input {
        c1_output: C1Output(vec![1]),
        storage_provider_id: StorageProviderId(3),
        sector_id: SectorId(4),
        registered_proof: RegisteredSealProof::StackedDrg8MiBV1_1,
    };
    assert_eq!(decode_c2_input(&parse(&print(&encode_c2_input(&input))).unwrap()), Some(input));
}

#[test]
fn proof_variants_go_by_name() {
    assert_eq!(proof_to_name(RegisteredSealProof::StackedDrg2KiBV1), "StackedDrg2KiBV1");
    assert_eq!(proof_to_name(RegisteredSealProof::StackedDrg64GiBV1_1), "StackedDrg64GiBV1_1");
    for kind in ALL_PROOFS {
        assert_eq!(proof_from_name(&proof_to_name(kind)), Some(kind));
    }
    assert_eq!(proof_from_name("StackedDrg2KiBV2"), None);
    assert_eq!(proof_from_name(""), None);
}

#[test]
fn text_that_is_no_json_is_refused() {
    assert!(parse("{\"a\":").is_err());
    assert!(parse("").is_err());
    assert!(parse("{} x").is_err());
}

#[test]
fn trees_are_read_as_they_are_written() {
    let tree = parse("{\"b\":[1,-2,3.5,\"x\",null,true],\"a\":{}}").unwrap();
    assert_eq!(
        tree,
        Json::Object(vec![
            (
                "b".to_string(),
                Json::Array(vec![
                    Json::Unsigned(1),
                    Json::Signed(-2),
                    Json::Real("3.5".to_string()),
                    Json::Text("x".to_string()),
                    Json::Null,
                    Json::Bool(true),
                ])
            ),
            ("a".to_string(), Json::Object(vec![])),
        ])
    );
    assert_eq!(print(&tree), "{\"b\":[1,-2,3.5,\"x\",null,true],\"a\":{}}");
    assert_eq!(print(&Json::Signed(7)), "7");
}
