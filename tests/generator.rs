use snowflake::error::{IdField, SnowError};
use snowflake::layout::{compose_id, decompose_id, IdParts, EPOCH, SEQUENCE_MASK};
use snowflake::state::{wait_step, SnowflakeIdWorkerInner};
use snowflake::worker::SnowflakeIdWorker;

fn now_millis() -> u128 {
    std::time::SystemTime::now()
        .duration_since(std::time::UNIX_EPOCH)
        .unwrap()
        .as_millis()
}

#[test]
fn construction_accepts_every_identity_in_bounds() {
    for worker_id in 0..=31u128 {
        for data_center_id in 0..=31u128 {
            assert!(SnowflakeIdWorker::new(worker_id, data_center_id).is_ok());
            assert!(SnowflakeIdWorkerInner::new(worker_id, data_center_id).is_ok());
        }
    }
}

#[test]
fn construction_rejects_worker_id_out_of_range() {
    match SnowflakeIdWorker::new(32, 0) {
        Err(e) => assert_eq!(
            e,
            SnowError::InvalidIdentity { field: IdField::WorkerId, value: 32, max: 31 }
        ),
        Ok(_) => panic!("worker id 32 accepted"),
    }
    match SnowflakeIdWorker::new(1000, 1000) {
        Err(e) => assert_eq!(
            e,
            SnowError::InvalidIdentity { field: IdField::WorkerId, value: 1000, max: 31 }
        ),
        Ok(_) => panic!("worker id 1000 accepted"),
    }
}

#[test]
fn construction_rejects_data_center_id_out_of_range() {
    match SnowflakeIdWorker::new(31, 32) {
        Err(e) => assert_eq!(
            e,
            SnowError::InvalidIdentity { field: IdField::DataCenterId, value: 32, max: 31 }
        ),
        Ok(_) => panic!("data center id 32 accepted"),
    }
}

#[test]
fn compose_and_decompose_exact_values() {
    let id = compose_id(EPOCH + 5, 7, 3, 0);
    assert_eq!(id, 5 * 4194304 + 7 * 131072 + 3 * 4096);
    assert_eq!(id, 21901312);
    let parts = decompose_id(id + 9);
    assert_eq!(
        parts,
        IdParts { timestamp: EPOCH + 5, data_center_id: 7, worker_id: 3, sequence: 9 }
    );
    let top = compose_id(EPOCH + 1_000_000_000_000, 31, 31, 4095);
    assert_eq!(
        decompose_id(top),
        IdParts {
            timestamp: EPOCH + 1_000_000_000_000,
            data_center_id: 31,
            worker_id: 31,
            sequence: 4095
        }
    );
}

#[test]
fn successive_ids_increase() {
    let worker = SnowflakeIdWorker::new(1, 2).unwrap();
    let mut previous = worker.next_id().unwrap();
    for _ in 0..20_000 {
        let id = worker.next_id().unwrap();
        assert!(id > previous);
        let (a, b) = (decompose_id(previous), decompose_id(id));
        assert!((a.timestamp, a.sequence) < (b.timestamp, b.sequence));
        previous = id;
    }
}

#[test]
fn generated_ids_decode_to_identity() {
    let worker = SnowflakeIdWorker::new(3, 7).unwrap();
    for _ in 0..5_000 {
        let parts = decompose_id(worker.next_id().unwrap());
        assert_eq!(parts.worker_id, 3);
        assert_eq!(parts.data_center_id, 7);
        assert!(parts.sequence <= SEQUENCE_MASK);
    }
}

#[test]
fn generated_timestamp_follows_the_clock() {
    let worker = SnowflakeIdWorker::new(0, 0).unwrap();
    let before = now_millis();
    let id = worker.next_id().unwrap();
    let after = now_millis();
    let parts = decompose_id(id);
    assert!(before <= parts.timestamp && parts.timestamp <= after);
    assert_eq!(parts.sequence, 0);
}

#[test]
fn exhausted_millisecond_moves_to_the_next() {
    let mut state = SnowflakeIdWorkerInner::new(5, 9).unwrap();
    let now = EPOCH + 1_000;
    for expected in 0..=4095u128 {
        let id = state.next_id_at(now).unwrap().unwrap();
        assert_eq!(decompose_id(id), IdParts { timestamp: now, data_center_id: 9, worker_id: 5, sequence: expected });
    }
    assert_eq!(state.next_id_at(now), Ok(None));
    assert_eq!(state.next_id_at(now), Ok(None));
    let id = state.next_id_at(now + 1).unwrap().unwrap();
    assert_eq!(decompose_id(id), IdParts { timestamp: now + 1, data_center_id: 9, worker_id: 5, sequence: 0 });
}

#[test]
fn more_than_a_millisecond_of_ids_from_the_clock() {
    let mut state = SnowflakeIdWorkerInner::new(31, 31).unwrap();
    let mut previous = state.next_id().unwrap();
    for _ in 0..3 * 4096 {
        let id = state.next_id().unwrap();
        assert!(id > previous);
        let parts = decompose_id(id);
        assert_eq!((parts.worker_id, parts.data_center_id), (31, 31));
        previous = id;
    }
}

#[test]
fn clock_regression_reports_distance_and_keeps_state() {
    let mut state = SnowflakeIdWorkerInner::new(3, 7).unwrap();
    let now = EPOCH + 50_000;
    let first = state.next_id_at(now).unwrap().unwrap();
    assert_eq!(state.next_id_at(now - 120), Err(SnowError::ClockRegression { behind_ms: 120 }));
    assert_eq!(state.next_id_at(now - 1), Err(SnowError::ClockRegression { behind_ms: 1 }));
    let second = state.next_id_at(now).unwrap().unwrap();
    assert_eq!(second, first + 1);
    let third = state.next_id_at(now + 3).unwrap().unwrap();
    assert_eq!(decompose_id(third), IdParts { timestamp: now + 3, data_center_id: 7, worker_id: 3, sequence: 0 });
}

#[test]
fn clock_outside_the_layout_is_a_read_failure() {
    let mut state = SnowflakeIdWorkerInner::new(0, 0).unwrap();
    assert_eq!(state.next_id_at(0), Err(SnowError::ClockReadFailure));
    assert_eq!(state.next_id_at(EPOCH - 1), Err(SnowError::ClockReadFailure));
    assert_eq!(state.next_id_at(u128::MAX), Err(SnowError::ClockReadFailure));
    let id = state.next_id_at(EPOCH).unwrap().unwrap();
    assert_eq!(id, 0);
}

#[test]
fn same_millisecond_ids_differ_in_sequence_only() {
    let mut state = SnowflakeIdWorkerInner::new(3, 7).unwrap();
    let now = EPOCH + 123_456;
    let a = state.next_id_at(now).unwrap().unwrap();
    let b = state.next_id_at(now).unwrap().unwrap();
    assert_eq!(a & 0xfff, 0);
    assert_eq!(b & 0xfff, 1);
    assert_eq!((b & 0xfff) - (a & 0xfff), 1);
    assert_eq!(a >> 12, b >> 12);
    assert_eq!((a >> 12) & 31, 3);
    assert_eq!((a >> 17) & 31, 7);
}

#[test]
fn regression_to_before_the_epoch_is_a_regression() {
    let mut state = SnowflakeIdWorkerInner::new(3, 7).unwrap();
    let now = EPOCH + 10;
    let first = state.next_id_at(now).unwrap().unwrap();
    assert_eq!(state.next_id_at(5), Err(SnowError::ClockRegression { behind_ms: EPOCH + 5 }));
    assert_eq!(state.next_id_at(0), Err(SnowError::ClockRegression { behind_ms: EPOCH + 10 }));
    let second = state.next_id_at(now).unwrap().unwrap();
    assert_eq!(second, first + 1);
}

#[test]
fn wait_step_decides_on_each_reading() {
    assert_eq!(wait_step(100, None), Some(Err(SnowError::ClockReadFailure)));
    assert_eq!(wait_step(100, Some(99)), None);
    assert_eq!(wait_step(100, Some(100)), None);
    assert_eq!(wait_step(100, Some(101)), Some(Ok(101)));
    assert_eq!(wait_step(EPOCH, Some(EPOCH + 7)), Some(Ok(EPOCH + 7)));
}
