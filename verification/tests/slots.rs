use opaque_client::encoding::encode;
use opaque_client::slot::{
    copy_cstr, slot_capacity_for, store_text, update_login_message_state, update_message_session,
    update_registration_message_state, MessageSession, MessageState,
};
use opaque_client::status::{LoginArtifacts, OpaqueError, OpaqueStatus, StartArtifacts};

#[test]
fn copy_cstr_writes_text_and_terminator_only() {
    let mut slot = Some(vec![0xaau8; 8]);
    assert_eq!(copy_cstr(b"abc", &mut slot), OpaqueStatus::Success);
    assert_eq!(slot, Some(vec![b'a', b'b', b'c', 0, 0xaa, 0xaa, 0xaa, 0xaa]));
}

#[test]
fn copy_cstr_fills_an_exactly_sized_slot() {
    let mut slot = Some(vec![0xaau8; 4]);
    assert_eq!(copy_cstr(b"abc", &mut slot), OpaqueStatus::Success);
    assert_eq!(slot, Some(vec![b'a', b'b', b'c', 0]));
}

#[test]
fn copy_cstr_writes_empty_text() {
    let mut slot = Some(vec![0xaau8; 2]);
    assert_eq!(copy_cstr(b"", &mut slot), OpaqueStatus::Success);
    assert_eq!(slot, Some(vec![0, 0xaa]));
}

#[test]
fn copy_cstr_fails_on_absent_slot() {
    let mut slot: Option<Vec<u8>> = None;
    assert_eq!(copy_cstr(b"abc", &mut slot), OpaqueStatus::Failure);
    assert_eq!(slot, None);
}

#[test]
fn copy_cstr_fails_without_room_for_the_terminator() {
    let mut slot = Some(vec![0xaau8; 3]);
    assert_eq!(copy_cstr(b"abc", &mut slot), OpaqueStatus::Failure);
    assert_eq!(slot, Some(vec![0xaa, 0xaa, 0xaa]));
    let mut empty = Some(Vec::new());
    assert_eq!(copy_cstr(b"", &mut empty), OpaqueStatus::Failure);
    assert_eq!(empty, Some(Vec::new()));
}

#[test]
fn registration_artifacts_are_encoded_into_both_slots() {
    let artifacts = StartArtifacts { message: b"Man".to_vec(), state: b"M".to_vec() };
    let mut slots = MessageState { message: Some(vec![1u8; 6]), state: Some(vec![2u8; 4]) };
    assert_eq!(update_registration_message_state(artifacts, &mut slots), OpaqueStatus::Success);
    assert_eq!(slots.message, Some(vec![b'T', b'W', b'F', b'u', 0, 1]));
    assert_eq!(slots.state, Some(vec![b'T', b'Q', 0, 2]));
}

#[test]
fn login_artifacts_are_encoded_into_both_slots() {
    let artifacts = StartArtifacts { message: b"hello".to_vec(), state: vec![0xfb, 0xff] };
    let mut slots = MessageState { message: Some(vec![1u8; 8]), state: Some(vec![2u8; 4]) };
    assert_eq!(update_login_message_state(artifacts, &mut slots), OpaqueStatus::Success);
    assert_eq!(slots.message, Some(b"aGVsbG8\0".to_vec()));
    assert_eq!(slots.state, Some(b"-_8\0".to_vec()));
}

#[test]
fn session_artifacts_are_encoded_into_both_slots() {
    let artifacts = LoginArtifacts { message: b"Ma".to_vec(), session_key: vec![0xff; 3] };
    let mut slots = MessageSession { message: Some(vec![1u8; 4]), session: Some(vec![2u8; 6]) };
    assert_eq!(update_message_session(artifacts, &mut slots), OpaqueStatus::Success);
    assert_eq!(slots.message, Some(b"TWE\0".to_vec()));
    assert_eq!(slots.session, Some(vec![b'_', b'_', b'_', b'_', 0, 2]));
}

#[test]
fn absent_first_slot_leaves_the_second_untouched() {
    let artifacts = StartArtifacts { message: b"Man".to_vec(), state: b"M".to_vec() };
    let mut slots = MessageState { message: None, state: Some(vec![2u8; 4]) };
    assert_eq!(update_registration_message_state(artifacts, &mut slots), OpaqueStatus::Failure);
    assert_eq!(slots.message, None);
    assert_eq!(slots.state, Some(vec![2u8; 4]));

    let artifacts = StartArtifacts { message: b"Man".to_vec(), state: b"M".to_vec() };
    let mut slots = MessageState { message: None, state: Some(vec![2u8; 4]) };
    assert_eq!(update_login_message_state(artifacts, &mut slots), OpaqueStatus::Failure);
    assert_eq!(slots.state, Some(vec![2u8; 4]));

    let artifacts = LoginArtifacts { message: b"Man".to_vec(), session_key: b"M".to_vec() };
    let mut slots = MessageSession { message: None, session: Some(vec![2u8; 4]) };
    assert_eq!(update_message_session(artifacts, &mut slots), OpaqueStatus::Failure);
    assert_eq!(slots.session, Some(vec![2u8; 4]));
}

#[test]
fn absent_second_slot_fails_after_the_first_write() {
    let artifacts = StartArtifacts { message: b"Man".to_vec(), state: b"M".to_vec() };
    let mut slots = MessageState { message: Some(vec![1u8; 5]), state: None };
    assert_eq!(update_registration_message_state(artifacts, &mut slots), OpaqueStatus::Failure);
    assert_eq!(slots.message, Some(b"TWFu\0".to_vec()));
    assert_eq!(slots.state, None);
}

#[test]
fn short_second_slot_fails_and_keeps_its_bytes() {
    let artifacts = LoginArtifacts { message: b"Man".to_vec(), session_key: b"Man".to_vec() };
    let mut slots = MessageSession { message: Some(vec![1u8; 5]), session: Some(vec![2u8; 4]) };
    assert_eq!(update_message_session(artifacts, &mut slots), OpaqueStatus::Failure);
    assert_eq!(slots.message, Some(b"TWFu\0".to_vec()));
    assert_eq!(slots.session, Some(vec![2u8; 4]));
}

#[test]
fn slot_sized_to_encoded_length_plus_one_suffices() {
    let message = vec![7u8; 32];
    let state = vec![9u8; 65];
    let message_room = encode(&message).len() + 1;
    let state_room = encode(&state).len() + 1;
    let mut slots = MessageState {
        message: Some(vec![0xffu8; message_room]),
        state: Some(vec![0xffu8; state_room]),
    };
    let artifacts = StartArtifacts { message: message.clone(), state: state.clone() };
    assert_eq!(update_registration_message_state(artifacts, &mut slots), OpaqueStatus::Success);
    let mut expected_message = encode(&message);
    expected_message.push(0);
    let mut expected_state = encode(&state);
    expected_state.push(0);
    assert_eq!(slots.message, Some(expected_message));
    assert_eq!(slots.state, Some(expected_state));
}

#[test]
fn store_text_names_the_unavailable_destination() {
    let mut none: Option<Vec<u8>> = None;
    assert_eq!(store_text(b"abc", &mut none), Err(OpaqueError::DestinationUnavailable));
    assert_eq!(none, None);
    let mut short = Some(vec![9u8; 3]);
    assert_eq!(store_text(b"abc", &mut short), Err(OpaqueError::DestinationUnavailable));
    assert_eq!(short, Some(vec![9u8; 3]));
    let mut slot = Some(vec![9u8; 5]);
    assert_eq!(store_text(b"abc", &mut slot), Ok(()));
    assert_eq!(slot, Some(vec![b'a', b'b', b'c', 0, 9]));
}

#[test]
fn slot_capacity_is_encoded_length_plus_one() {
    assert_eq!(slot_capacity_for(0), Some(1));
    assert_eq!(slot_capacity_for(1), Some(3));
    assert_eq!(slot_capacity_for(2), Some(4));
    assert_eq!(slot_capacity_for(3), Some(5));
    assert_eq!(slot_capacity_for(4), Some(7));
    assert_eq!(slot_capacity_for(32), Some(44));
    assert_eq!(slot_capacity_for(64), Some(87));
    for n in 0usize..100 {
        assert_eq!(slot_capacity_for(n), Some(encode(&vec![0u8; n]).len() + 1));
    }
    assert_eq!(slot_capacity_for(usize::MAX), None);
    assert_eq!(slot_capacity_for(usize::MAX / 4 * 3), Some(usize::MAX - 2));
    assert_eq!(slot_capacity_for(usize::MAX / 4 * 3 + 3), None);
}
