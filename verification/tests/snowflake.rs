use snowflake_multi_threaded::SnowFlakeError;
use snowflake_multi_threaded::SnowFlakeId;
use snowflake_multi_threaded::TIMESTAMP_LIMIT;
use snowflake_multi_threaded::TWEPOCH;
use snowflake_multi_threaded::decompose_id;

#[test]
fn loop_test() {
    let mut id_gen = SnowFlakeId::new(1, 1);
    println!("{:?}", &id_gen);
    for _ in 1..1000 {
        let t = &mut id_gen;
        assert!(t.generate_id().is_ok());
    }
}

#[test]
fn first_two_ids_of_a_millisecond() {
    let mut id_gen = SnowFlakeId::new(1, 1);
    let t0 = TWEPOCH + 123;
    let id = id_gen.generate_at(t0).unwrap();
    assert_eq!(id & 0xfff, 0);
    assert_eq!((id >> 12) & 0x1f, 1);
    assert_eq!((id >> 17) & 0x1f, 1);
    assert_eq!(id >> 22, 123);
    let id2 = id_gen.generate_at(t0).unwrap();
    assert_eq!(id2 & 0xfff, 1);
    assert_eq!(id2 >> 12, id >> 12);
}

#[test]
fn packed_id_exact_value() {
    let mut id_gen = SnowFlakeId::new(3, 2);
    let id = id_gen.generate_at(TWEPOCH + 5).unwrap();
    assert_eq!(id, 5 * 0x40_0000 + 2 * 0x2_0000 + 3 * 0x1000);
}

#[test]
fn fields_round_trip() {
    let mut id_gen = SnowFlakeId::new(7, 4);
    let t0 = TWEPOCH + 987_654_321;
    let first = id_gen.generate_at(t0).unwrap();
    let second = id_gen.generate_at(t0).unwrap();
    let (ts, datacenter, worker, sequence) = decompose_id(second);
    assert_eq!(ts, t0);
    assert_eq!(datacenter, 4);
    assert_eq!(worker, 7);
    assert_eq!(sequence, 1);
    assert!(sequence < 0x1000);
    assert!(ts >= TWEPOCH);
    assert_eq!(decompose_id(first).3, 0);
}

#[test]
fn sequence_wraparound_waits_for_next_millisecond() {
    let mut id_gen = SnowFlakeId::new(1, 1);
    let t0 = TWEPOCH + 1;
    let first = id_gen.generate_at(t0).unwrap();
    for _ in 0..0xfff {
        assert!(id_gen.generate_at(t0).is_ok());
    }
    // The 4096 sequence values of t0 are spent: the next call at t0 must
    // come back from a strictly later millisecond, with the sequence reset.
    let overflowed = id_gen.generate_at(t0).unwrap();
    assert!(overflowed >> 22 > first >> 22);
    assert_eq!(overflowed & 0xfff, 0);
}

#[test]
fn clock_regression_is_rejected_without_mutation() {
    let mut id_gen = SnowFlakeId::new(1, 1);
    let t0 = TWEPOCH + 1000;
    id_gen.generate_at(t0).unwrap();
    assert_eq!(id_gen.last_timestamp_millis(), t0);
    let r = id_gen.generate_at(t0 - 1);
    assert_eq!(r, Err(SnowFlakeError::ClockRegression));
    assert_eq!(id_gen.last_timestamp_millis(), t0);
    // The generator goes on from its untouched state.
    let next = id_gen.generate_at(t0).unwrap();
    assert_eq!(next & 0xfff, 1);
    assert_eq!(next >> 22, 1000);
}

#[test]
fn unusable_timestamps_are_rejected() {
    let mut id_gen = SnowFlakeId::new(1, 1);
    assert_eq!(id_gen.generate_at(TWEPOCH - 1), Err(SnowFlakeError::ClockUnavailable));
    assert_eq!(id_gen.generate_at(5), Err(SnowFlakeError::ClockUnavailable));
    assert_eq!(id_gen.generate_at(TIMESTAMP_LIMIT), Err(SnowFlakeError::ClockUnavailable));
    assert_eq!(id_gen.last_timestamp_millis(), 0);
    assert!(id_gen.generate_at(TWEPOCH).is_ok());
}

#[test]
fn ids_strictly_increase_within_one_instance() {
    let mut id_gen = SnowFlakeId::new(2, 3);
    let mut previous: i64 = -1;
    for _ in 0..5000 {
        let id = id_gen.generate_id().unwrap();
        assert!(id > previous);
        previous = id;
    }
}

#[test]
fn generated_timestamp_tracks_the_host_clock() {
    let mut id_gen = SnowFlakeId::new(1, 1);
    let id = id_gen.generate_id().unwrap();
    let (ts, _, _, _) = decompose_id(id);
    // A plausible present-day wall clock: after 2020, within the 41-bit range.
    assert!(ts > 1_600_000_000_000);
    assert!(ts < TIMESTAMP_LIMIT);
}

#[test]
fn distinct_workers_never_collide() {
    let mut ids: Vec<i64> = Vec::new();
    for worker_id in 1..10 {
        let mut id_gen = SnowFlakeId::new(worker_id, 1);
        for _ in 0..1000 {
            ids.push(id_gen.generate_id().unwrap());
        }
    }
    assert_eq!(ids.len(), 9000);
    ids.sort();
    for pair in ids.windows(2) {
        assert!(pair[0] != pair[1]);
    }
}

#[test]
fn nanoseconds_truncate_to_milliseconds() {
    assert_eq!(SnowFlakeId::millis_of_nanos(0), Some(0));
    assert_eq!(SnowFlakeId::millis_of_nanos(999_999), Some(0));
    assert_eq!(SnowFlakeId::millis_of_nanos(1_000_000), Some(1));
    assert_eq!(SnowFlakeId::millis_of_nanos(1_234_567_890), Some(1234));
    assert_eq!(SnowFlakeId::millis_of_nanos(-1), None);
    assert_eq!(SnowFlakeId::millis_of_nanos(-5_000_000), None);
    let past_i64_millis = (i64::MAX as i128 + 1) * 1_000_000;
    assert_eq!(SnowFlakeId::millis_of_nanos(past_i64_millis), None);
    assert_eq!(SnowFlakeId::millis_of_nanos(past_i64_millis - 1), Some(i64::MAX));
}

#[test]
fn try_new_checks_the_field_widths() {
    assert!(SnowFlakeId::try_new(32, 0).is_none());
    assert!(SnowFlakeId::try_new(0, 32).is_none());
    assert!(SnowFlakeId::try_new(-1, 0).is_none());
    assert!(SnowFlakeId::try_new(0, -1).is_none());
    let mut id_gen = SnowFlakeId::try_new(31, 31).unwrap();
    let id = id_gen.generate_at(TWEPOCH + 9).unwrap();
    let (ts, datacenter, worker, sequence) = decompose_id(id);
    assert_eq!(ts, TWEPOCH + 9);
    assert_eq!(datacenter, 31);
    assert_eq!(worker, 31);
    assert_eq!(sequence, 0);
}
