use opaque_client::instance::{ClientFlow, FlowKind, FlowPhase};
use opaque_client::slot::{MessageSession, MessageState};
use opaque_ke::ciphersuite::CipherSuite;
use opaque_client::status::{OpaqueError, OpaqueStatus, StartArtifacts};
use opaque_ke::errors::ProtocolError;

fn slots() -> MessageState {
    MessageState { message: Some(vec![0u8; 64]), state: Some(vec![0u8; 64]) }
}

fn artifacts() -> StartArtifacts {
    StartArtifacts { message: b"Man".to_vec(), state: b"M".to_vec() }
}

#[test]
fn new_instance_is_idle() {
    let flow = ClientFlow::new(FlowKind::Login);
    assert_eq!(flow.kind(), FlowKind::Login);
    assert_eq!(flow.phase(), FlowPhase::Idle);
}

#[test]
fn successful_start_moves_to_started() {
    let mut flow = ClientFlow::new(FlowKind::Registration);
    let mut out = slots();
    assert_eq!(flow.start_with(Ok(artifacts()), &mut out), OpaqueStatus::Success);
    assert_eq!(flow.phase(), FlowPhase::Started);
    assert_eq!(&out.message.unwrap()[..5], b"TWFu\0");
    assert_eq!(&out.state.unwrap()[..3], b"TQ\0");
}

#[test]
fn failed_start_stays_idle() {
    let mut flow = ClientFlow::new(FlowKind::Registration);
    let mut out = slots();
    assert_eq!(flow.start_with(Err(ProtocolError::ClientError), &mut out), OpaqueStatus::Failure);
    assert_eq!(flow.phase(), FlowPhase::Idle);
    let mut none = MessageState { message: None, state: Some(vec![0u8; 64]) };
    assert_eq!(flow.start_with(Ok(artifacts()), &mut none), OpaqueStatus::Failure);
    assert_eq!(flow.phase(), FlowPhase::Idle);
}

#[test]
fn second_start_is_refused_and_writes_nothing() {
    let mut flow = ClientFlow::new(FlowKind::Login);
    let mut out = slots();
    assert_eq!(flow.start_with(Ok(artifacts()), &mut out), OpaqueStatus::Success);
    let mut again = MessageState { message: Some(vec![9u8; 64]), state: Some(vec![9u8; 64]) };
    assert_eq!(flow.start_with(Ok(artifacts()), &mut again), OpaqueStatus::Failure);
    assert_eq!(again.message, Some(vec![9u8; 64]));
    assert_eq!(again.state, Some(vec![9u8; 64]));
    assert_eq!(flow.phase(), FlowPhase::Started);
}

#[test]
fn finish_before_start_is_invalid_state() {
    let mut flow = ClientFlow::new(FlowKind::Login);
    let r = flow.finish_inputs(b"Man".to_vec(), true, b"TQ").map(|i| i.state);
    assert_eq!(r, Err(OpaqueError::InvalidState));
    assert_eq!(flow.phase(), FlowPhase::Idle);
}

#[test]
fn state_is_handed_on_once() {
    let mut flow = ClientFlow::new(FlowKind::Registration);
    let mut out = slots();
    assert_eq!(flow.start_with(Ok(artifacts()), &mut out), OpaqueStatus::Success);
    let first = flow.finish_inputs(b"M".to_vec(), true, b"TWFu").ok().unwrap();
    assert_eq!(first.state, b"M".to_vec());
    assert_eq!(first.server_message, b"Man".to_vec());
    assert_eq!(flow.phase(), FlowPhase::Completed);
    let second = flow.finish_inputs(b"M".to_vec(), true, b"TWFu").map(|i| i.state);
    assert_eq!(second, Err(OpaqueError::InvalidState));
    assert_eq!(flow.phase(), FlowPhase::Completed);
    let mut more = slots();
    assert_eq!(flow.start_with(Ok(artifacts()), &mut more), OpaqueStatus::Failure);
    assert_eq!(flow.phase(), FlowPhase::Completed);
}

#[test]
fn malformed_text_uses_nothing_up() {
    let mut flow = ClientFlow::new(FlowKind::Login);
    let mut out = slots();
    assert_eq!(flow.start_with(Ok(artifacts()), &mut out), OpaqueStatus::Success);
    let r = flow.finish_inputs(b"M".to_vec(), true, b"TWF=").map(|i| i.state);
    assert_eq!(r, Err(OpaqueError::MalformedEncoding));
    assert_eq!(flow.phase(), FlowPhase::Started);
    let r = flow.finish_inputs(b"M".to_vec(), false, b"TWF=").map(|i| i.state);
    assert_eq!(r, Err(OpaqueError::InvalidState));
    assert_eq!(flow.phase(), FlowPhase::Started);
    let r = flow.finish_inputs(b"M".to_vec(), true, b"TWFu").map(|i| i.state);
    assert_eq!(r, Ok(b"M".to_vec()));
    assert_eq!(flow.phase(), FlowPhase::Completed);
}

struct Cipher;

impl CipherSuite for Cipher {
    type Group = curve25519_dalek::ristretto::RistrettoPoint;
    type KeyExchange = opaque_ke::key_exchange::tripledh::TripleDH;
    type Hash = sha2::Sha512;
    type SlowHash = scrypt::ScryptParams;
}

fn text_of(slot: &Option<Vec<u8>>) -> Vec<u8> {
    let buffer = slot.as_ref().unwrap();
    let end = buffer.iter().position(|b| *b == 0).unwrap();
    buffer[..end].to_vec()
}

#[test]
fn start_on_a_password_fills_the_slots() {
    let mut flow = ClientFlow::new(FlowKind::Login);
    let mut out = MessageState { message: Some(vec![1u8; 1024]), state: Some(vec![1u8; 1024]) };
    assert_eq!(flow.start::<Cipher>(b"hunter2", &mut out), OpaqueStatus::Success);
    assert_eq!(flow.phase(), FlowPhase::Started);
    assert!(!text_of(&out.message).is_empty());
    assert!(!text_of(&out.state).is_empty());
    let mut again = MessageState { message: Some(vec![1u8; 1024]), state: Some(vec![1u8; 1024]) };
    assert_eq!(flow.start::<Cipher>(b"hunter2", &mut again), OpaqueStatus::Failure);
    assert_eq!(again.message, Some(vec![1u8; 1024]));
}

#[test]
fn finish_of_the_other_flow_is_refused() {
    let mut flow = ClientFlow::new(FlowKind::Registration);
    let mut out = MessageState { message: Some(vec![1u8; 1024]), state: Some(vec![1u8; 1024]) };
    assert_eq!(flow.start::<Cipher>(b"hunter2", &mut out), OpaqueStatus::Success);
    let state = text_of(&out.state);
    let mut session = MessageSession { message: Some(vec![2u8; 64]), session: Some(vec![3u8; 64]) };
    let status = flow.finish_login::<Cipher>(&state, b"TWFu", &mut session);
    assert_eq!(status, OpaqueStatus::Failure);
    assert_eq!(session.message, Some(vec![2u8; 64]));
    assert_eq!(session.session, Some(vec![3u8; 64]));
    assert_eq!(flow.phase(), FlowPhase::Started);
}

#[test]
fn finish_uses_the_state_up_even_when_the_primitives_refuse() {
    let mut flow = ClientFlow::new(FlowKind::Registration);
    let mut out = MessageState { message: Some(vec![1u8; 1024]), state: Some(vec![1u8; 1024]) };
    assert_eq!(flow.start::<Cipher>(b"hunter2", &mut out), OpaqueStatus::Success);
    let state = text_of(&out.state);
    let mut slot = Some(vec![4u8; 1024]);
    let status = flow.finish_registration::<Cipher>(&state, b"TWFu", &mut slot);
    assert_eq!(status, OpaqueStatus::Failure);
    assert_eq!(slot, Some(vec![4u8; 1024]));
    assert_eq!(flow.phase(), FlowPhase::Completed);
    let status = flow.finish_registration::<Cipher>(&state, b"TWFu", &mut slot);
    assert_eq!(status, OpaqueStatus::Failure);
    assert_eq!(flow.phase(), FlowPhase::Completed);
}

#[test]
fn finish_on_malformed_text_keeps_the_instance_started() {
    let mut flow = ClientFlow::new(FlowKind::Login);
    let mut out = slots();
    assert_eq!(flow.start_with(Ok(artifacts()), &mut out), OpaqueStatus::Success);
    let mut session = MessageSession { message: Some(vec![2u8; 64]), session: Some(vec![3u8; 64]) };
    let status = flow.finish_login::<Cipher>(b"T Q", b"TWFu", &mut session);
    assert_eq!(status, OpaqueStatus::Failure);
    assert_eq!(flow.phase(), FlowPhase::Started);
    assert_eq!(session.message, Some(vec![2u8; 64]));
}

#[test]
fn finish_examines_the_state_before_the_server_message() {
    let mut flow = ClientFlow::new(FlowKind::Registration);
    let mut out = slots();
    assert_eq!(flow.start_with(Ok(artifacts()), &mut out), OpaqueStatus::Success);
    let mut slot = Some(vec![4u8; 64]);
    let status = flow.finish_registration::<Cipher>(b"", b"ab cd", &mut slot);
    assert_eq!(status, OpaqueStatus::Failure);
    assert_eq!(slot, Some(vec![4u8; 64]));
    assert_eq!(flow.phase(), FlowPhase::Started);
}
