use sealing_jobs::text::{decimal, replace, same};
use sealing_jobs::filecoin::{
    sector_size, ProverId, RegisteredSealProof, StorageProviderId, UnpaddedBytesAmount,
    SECTOR_SIZE_2_KIB, SECTOR_SIZE_32_GIB, SECTOR_SIZE_512_MIB, SECTOR_SIZE_64_GIB,
    SECTOR_SIZE_8_MIB,
};

fn round_trip(n: u64) -> StorageProviderId {
    StorageProviderId::from_prover_id(&ProverId::from(StorageProviderId(n)))
}

#[test]
fn prover_id_round_trip_is_lossless() {
    for n in [
        0u64,
        1,
        127,
        128,
        255,
        300,
        1111,
        16383,
        16384,
        123123,
        1 << 32,
        (1 << 63) - 1,
        1 << 63,
        u64::MAX,
    ] {
        assert_eq!(round_trip(n), StorageProviderId(n));
        assert_eq!(
            StorageProviderId::try_from_prover_id(&ProverId::from(StorageProviderId(n))),
            Some(StorageProviderId(n))
        );
    }
}

#[test]
fn prover_id_starts_with_the_varint_and_ends_in_zeros() {
    let id = ProverId::from(StorageProviderId(300));
    let mut expected = [0u8; 32];
    expected[0] = 0xac;
    expected[1] = 0x02;
    assert_eq!(id.0, expected);

    let id = ProverId::from(StorageProviderId(1111));
    let mut expected = [0u8; 32];
    expected[0] = 0xd7;
    expected[1] = 0x08;
    assert_eq!(id.0, expected);

    let id = ProverId::from(StorageProviderId(0));
    assert_eq!(id.0, [0u8; 32]);

    let id = ProverId::from(StorageProviderId(u64::MAX));
    let mut expected = [0u8; 32];
    for b in expected.iter_mut().take(9) {
        *b = 0xff;
    }
    expected[9] = 0x01;
    assert_eq!(id.0, expected);
}

#[test]
fn prover_id_default_is_all_zeros_and_names_provider_zero() {
    let id = ProverId::default();
    assert_eq!(id.0, [0u8; 32]);
    assert_eq!(StorageProviderId::try_from_prover_id(&id), Some(StorageProviderId(0)));
}

#[test]
fn prover_id_without_an_end_names_no_provider() {
    let id = ProverId([0x80u8; 32]);
    assert_eq!(StorageProviderId::try_from_prover_id(&id), None);
}

#[test]
fn prover_id_with_a_trailing_zero_group_names_no_provider() {
    let mut bytes = [0u8; 32];
    bytes[0] = 0x81;
    bytes[1] = 0x00;
    assert_eq!(StorageProviderId::try_from_prover_id(&ProverId(bytes)), None);
}

#[test]
fn prover_id_drops_bits_beyond_the_sixty_fourth() {
    let mut bytes = [0u8; 32];
    for b in bytes.iter_mut().take(9) {
        *b = 0x80;
    }
    bytes[9] = 0x03;
    assert_eq!(
        StorageProviderId::try_from_prover_id(&ProverId(bytes)),
        Some(StorageProviderId(1 << 63))
    );
}

#[test]
fn sector_sizes_are_the_five_powers_of_two() {
    assert_eq!(SECTOR_SIZE_2_KIB, 1 << 11);
    assert_eq!(SECTOR_SIZE_8_MIB, 1 << 23);
    assert_eq!(SECTOR_SIZE_512_MIB, 1 << 29);
    assert_eq!(SECTOR_SIZE_32_GIB, 1 << 35);
    assert_eq!(SECTOR_SIZE_64_GIB, 1 << 36);
}

#[test]
fn sector_size_of_every_variant() {
    assert_eq!(sector_size(&RegisteredSealProof::StackedDrg2KiBV1), 2048);
    assert_eq!(sector_size(&RegisteredSealProof::StackedDrg8MiBV1), 8388608);
    assert_eq!(sector_size(&RegisteredSealProof::StackedDrg512MiBV1), 536870912);
    assert_eq!(sector_size(&RegisteredSealProof::StackedDrg32GiBV1), 34359738368);
    assert_eq!(sector_size(&RegisteredSealProof::StackedDrg64GiBV1), 68719476736);
    assert_eq!(sector_size(&RegisteredSealProof::StackedDrg2KiBV1_1), 2048);
    assert_eq!(sector_size(&RegisteredSealProof::StackedDrg8MiBV1_1), 8388608);
    assert_eq!(sector_size(&RegisteredSealProof::StackedDrg512MiBV1_1), 536870912);
    assert_eq!(sector_size(&RegisteredSealProof::StackedDrg32GiBV1_1), 34359738368);
    assert_eq!(sector_size(&RegisteredSealProof::StackedDrg64GiBV1_1), 68719476736);
}

#[test]
fn unpadded_bytes_amount_defaults_to_zero_and_orders_by_value() {
    assert_eq!(UnpaddedBytesAmount::default(), UnpaddedBytesAmount(0));
    assert!(UnpaddedBytesAmount(1) < UnpaddedBytesAmount(2));
}

#[test]
fn replace_takes_matches_from_the_left() {
    assert_eq!(replace("/job/:count/:job_type", ":count", "5"), "/job/5/:job_type");
    assert_eq!(replace("aaa", "aa", "b"), "ba");
    assert_eq!(replace("aaaa", "aa", "b"), "bb");
    assert_eq!(replace("abcabc", "bc", ""), "aa");
    assert_eq!(replace("abc", "abcd", "x"), "abc");
    assert_eq!(replace("", "a", "x"), "");
    assert_eq!(replace("abc", "", "x"), "abc");
    assert_eq!(replace("a:b:c", ":", "::"), "a::b::c");
    assert_eq!(replace("h\u{e9}llo w\u{f6}rld", "\u{f6}", "o"), "h\u{e9}llo world");
    assert_eq!(replace("xay", "a", "\u{1F600}"), "x\u{1F600}y");
}

#[test]
fn decimal_writes_numbers_without_leading_zeros() {
    assert_eq!(decimal(0), "0");
    assert_eq!(decimal(7), "7");
    assert_eq!(decimal(10), "10");
    assert_eq!(decimal(1234567890), "1234567890");
    assert_eq!(decimal(u64::MAX), "18446744073709551615");
}

#[test]
fn same_compares_character_by_character() {
    assert!(same("", ""));
    assert!(same("PC1", "PC1"));
    assert!(!same("PC1", "PC2"));
    assert!(!same("PC", "PC1"));
    assert!(!same("pc1", "PC1"));
    assert!(same("h\u{e9}", "h\u{e9}"));
    assert!(!same("h\u{e9}", "he"));
}
