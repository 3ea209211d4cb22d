use raw_sync::locks::windows::{
    alignment, attach_name, creation_event, attach_result, mutex_name, read_record, size_of, wait_millis, write_record,
    Creation, CreationAction, CreationEvent, INFINITE, RECORD_SIZE,
};
use raw_sync::locks::LockError;
use raw_sync::Timeout;

#[test]
fn record_size_and_alignment() {
    assert_eq!(size_of(), 4);
    assert_eq!(RECORD_SIZE, 4);
    assert_eq!(alignment(), None);
}

#[test]
fn record_is_little_endian() {
    let mut mem = [0xAAu8; 6];
    write_record(&mut mem, 0x1234_5678);
    assert_eq!(mem, [0x78, 0x56, 0x34, 0x12, 0xAA, 0xAA]);
    assert_eq!(read_record(&mem), Ok(0x1234_5678));
}

#[test]
fn record_round_trip() {
    for id in [0u32, 1, 255, 256, 65_535, 1_000_000, u32::MAX] {
        let mut mem = [0u8; 4];
        write_record(&mut mem, id);
        assert_eq!(read_record(&mem), Ok(id));
    }
}

#[test]
fn short_record_is_invalid() {
    assert_eq!(read_record(&[1, 2, 3]), Err(LockError::InvalidRecord { len: 3 }));
    assert_eq!(read_record(&[]), Err(LockError::InvalidRecord { len: 0 }));
    assert!(matches!(attach_name(&[9]), Err(LockError::InvalidRecord { len: 1 })));
}

#[test]
fn names_are_decimal() {
    assert_eq!(mutex_name(42), b"mutex_42\0".to_vec());
    assert_eq!(mutex_name(0), b"mutex_0\0".to_vec());
    assert_eq!(mutex_name(u32::MAX), b"mutex_4294967295\0".to_vec());
}

#[test]
fn attach_reads_the_created_record() {
    let mut region = [0u8; 8];
    write_record(&mut region, 3_141_592);
    let (id, name) = attach_name(&region).unwrap();
    assert_eq!(id, 3_141_592);
    assert_eq!(name, mutex_name(3_141_592));
    assert_eq!(attach_result(id, true), Ok(4));
    assert_eq!(attach_result(id, false), Err(LockError::Attach { id: 3_141_592 }));
}

#[test]
fn wait_durations() {
    assert_eq!(wait_millis(Timeout::Infinite), INFINITE);
    assert_eq!(wait_millis(Timeout::Val { secs: 1, nanos: 500_000_000 }), 1500);
    assert_eq!(wait_millis(Timeout::Val { secs: 0, nanos: 2_999_000 }), 2);
    assert_eq!(wait_millis(Timeout::Val { secs: 0, nanos: 0 }), 0);
    assert_eq!(wait_millis(Timeout::Val { secs: 4_294_967, nanos: 294_000_000 }), 0xFFFF_FFFE);
    assert_eq!(wait_millis(Timeout::Val { secs: 10_000_000, nanos: 0 }), INFINITE - 1);
    assert_eq!(wait_millis(Timeout::Val { secs: u64::MAX, nanos: 999_999_999 }), INFINITE - 1);
}

fn created_id(state: &Creation, action: &CreationAction) -> u32 {
    match (state, action) {
        (Creation::Creating { id }, CreationAction::Create { id: a, name }) => {
            assert_eq!(id, a);
            assert_eq!(*name, mutex_name(*id));
            *id
        }
        _ => panic!("expected a creation attempt"),
    }
}

#[test]
fn creation_succeeds_after_release() {
    let (state, action) = Creation::start();
    let id = created_id(&state, &action);
    let (state, action) = state.step(CreationEvent::Created);
    assert!(matches!(state, Creation::Releasing { id: i } if i == id));
    assert!(matches!(action, CreationAction::Release));
    let (state, action) = state.step(CreationEvent::Released);
    assert!(matches!(state, Creation::Done { id: i } if i == id));
    assert!(matches!(action, CreationAction::WriteRecord { id: i } if i == id));
}

#[test]
fn creation_retries_taken_names() {
    let (mut state, action) = Creation::start();
    created_id(&state, &action);
    for _ in 0..5 {
        let (s, a) = state.step(CreationEvent::NameTaken);
        created_id(&s, &a);
        state = s;
    }
}

#[test]
fn creation_failures() {
    let (state, _) = Creation::start();
    let (state, action) = state.step(CreationEvent::CreateFailed { code: 5 });
    assert!(matches!(state, Creation::Failed { error: LockError::Construction { code: 5 } }));
    assert!(matches!(action, CreationAction::Fail { error: LockError::Construction { code: 5 } }));
    let (state, _) = Creation::start();
    let (state, _) = state.step(CreationEvent::Created);
    let (state, action) = state.step(CreationEvent::ReleaseFailed);
    assert!(matches!(state, Creation::Failed { error: LockError::Release }));
    assert!(matches!(action, CreationAction::Fail { error: LockError::Release }));
}

#[test]
fn creation_replies() {
    assert_eq!(creation_event(false, 5), CreationEvent::CreateFailed { code: 5 });
    assert_eq!(creation_event(true, 183), CreationEvent::NameTaken);
    assert_eq!(creation_event(true, 0), CreationEvent::Created);
}
