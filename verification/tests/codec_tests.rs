use staking_hook::codec::{deserialize_record, serialize_record, settle_persisted};
use staking_hook::StakingData;

#[test]
fn round_trip_reproduces_the_record() {
    let cases = [
        StakingData { starting_time: 0, time: 0 },
        StakingData { starting_time: 1000, time: 0 },
        StakingData { starting_time: 0, time: 500 },
        StakingData { starting_time: -5, time: 123456789 },
        StakingData { starting_time: i64::MAX, time: i64::MIN },
    ];
    for r in cases {
        let bytes = serialize_record(&r);
        assert_eq!(bytes.len(), 24);
        assert_eq!(deserialize_record(&bytes), Some(r));
    }
}

#[test]
fn exact_little_endian_layout() {
    let r = StakingData { starting_time: 0x0102030405060708, time: -2 };
    let bytes = serialize_record(&r);
    assert_eq!(&bytes[8..16], &[8, 7, 6, 5, 4, 3, 2, 1]);
    assert_eq!(&bytes[16..24], &[254, 255, 255, 255, 255, 255, 255, 255]);
}

#[test]
fn parse_rejects_foreign_bytes() {
    let r = StakingData { starting_time: 7, time: 9 };
    let mut bytes = serialize_record(&r);
    bytes[0] = bytes[0].wrapping_add(1);
    assert_eq!(deserialize_record(&bytes), None);

    let short = vec![0u8; 23];
    assert_eq!(deserialize_record(&short), None);

    let empty: Vec<u8> = Vec::new();
    assert_eq!(deserialize_record(&empty), None);
}

#[test]
fn settle_persisted_folds_interval_in_storage() {
    let mut bytes = serialize_record(&StakingData { starting_time: 1000, time: 0 });
    settle_persisted(&mut bytes, 1500);
    assert_eq!(
        deserialize_record(&bytes),
        Some(StakingData { starting_time: 0, time: 500 })
    );
    settle_persisted(&mut bytes, 1600);
    assert_eq!(
        deserialize_record(&bytes),
        Some(StakingData { starting_time: 0, time: 500 })
    );
}

#[test]
fn settle_persisted_keeps_size_and_tail() {
    let mut bytes = serialize_record(&StakingData { starting_time: 10, time: 1 });
    bytes.push(77);
    bytes.push(78);
    settle_persisted(&mut bytes, 25);
    assert_eq!(bytes.len(), 26);
    assert_eq!(&bytes[24..], &[77, 78]);
    assert_eq!(
        deserialize_record(&bytes),
        Some(StakingData { starting_time: 0, time: 16 })
    );
}

#[test]
fn settle_persisted_leaves_foreign_bytes_alone() {
    let mut garbage = vec![5u8; 30];
    let before = garbage.clone();
    settle_persisted(&mut garbage, 1500);
    assert_eq!(garbage, before);
}

#[test]
fn parse_reads_a_prefix() {
    let r = StakingData { starting_time: 11, time: -22 };
    let mut bytes = serialize_record(&r);
    bytes.push(0);
    bytes.push(99);
    assert_eq!(deserialize_record(&bytes), Some(r));
}
