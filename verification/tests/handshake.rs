//! The mutual-authentication handshake: the initiator and the verifier role,
//! tampering, and the protocol errors of the completion step.

use scp03::channel::{Channel, Id, SecurityLevel};
use scp03::command::{Command, CommandType, Response};
use scp03::error::SecureChannelError;
use scp03::types::{Challenge, StaticKeys};

fn pair() -> (Channel, Channel) {
    let keys = StaticKeys::new([0x50u8; 16], [0x51u8; 16]);
    let host_challenge = Challenge::new([8, 7, 6, 5, 4, 3, 2, 1]);
    let card_challenge = Challenge::new([16, 15, 14, 13, 12, 11, 10, 9]);
    let id = Id::new(1).unwrap();
    let host = Channel::new(id, &keys, &host_challenge, &card_challenge);
    let card = Channel::new(id, &keys, &host_challenge, &card_challenge);
    (host, card)
}

fn copy_command(cmd: &Command) -> Command {
    Command {
        command_type: cmd.command_type,
        session_id: cmd.session_id,
        data: cmd.data.clone(),
        mac: cmd.mac,
    }
}

#[test]
fn genuine_handshake_authenticates_both_sides() {
    let (mut host, mut card) = pair();
    let cmd = host.authenticate_session();

    assert_eq!(cmd.command_type, CommandType::AuthSession);
    assert_eq!(cmd.data, host.host_cryptogram().0.to_vec());
    assert_ne!(host.mac_chaining_value, [0u8; 16]);

    assert!(card.verify_authenticate_session(&cmd).is_ok());
    assert_eq!(card.security_level, SecurityLevel::Authenticated);
    assert_eq!(card.mac_chaining_value, host.mac_chaining_value);

    assert_eq!(host.security_level, SecurityLevel::NoSecurityLevel);
    assert!(host.finish_authenticate_session(&Response::new(Vec::new())).is_ok());
    assert_eq!(host.security_level, SecurityLevel::Authenticated);
}

#[test]
fn any_flipped_payload_byte_is_rejected() {
    let (mut host, _) = pair();
    let cmd = host.authenticate_session();
    for i in 0..cmd.data.len() {
        let (_, mut card) = pair();
        let mut tampered = copy_command(&cmd);
        tampered.data[i] ^= 0x01;
        assert_eq!(
            card.verify_authenticate_session(&tampered).unwrap_err(),
            SecureChannelError::VerifyFailed
        );
        assert_eq!(card.security_level, SecurityLevel::NoSecurityLevel);
        assert_eq!(card.mac_chaining_value, [0u8; 16]);
    }
}

#[test]
fn any_flipped_mac_byte_is_rejected() {
    let (mut host, _) = pair();
    let cmd = host.authenticate_session();
    for i in 0..cmd.mac.len() {
        let (_, mut card) = pair();
        let mut tampered = copy_command(&cmd);
        tampered.mac[i] ^= 0x80;
        assert_eq!(
            card.verify_authenticate_session(&tampered).unwrap_err(),
            SecureChannelError::VerifyFailed
        );
        assert_eq!(card.security_level, SecurityLevel::NoSecurityLevel);
        assert_eq!(card.mac_chaining_value, [0u8; 16]);
    }
}

#[test]
fn a_changed_type_or_session_id_byte_is_rejected() {
    let (mut host, _) = pair();
    let cmd = host.authenticate_session();

    let (_, mut card) = pair();
    let mut wrong_type = copy_command(&cmd);
    wrong_type.command_type = CommandType::Echo;
    assert_eq!(
        card.verify_authenticate_session(&wrong_type).unwrap_err(),
        SecureChannelError::VerifyFailed
    );
    assert_eq!(card.security_level, SecurityLevel::NoSecurityLevel);

    let (_, mut card) = pair();
    let mut wrong_id = copy_command(&cmd);
    wrong_id.session_id = Id::new(2).unwrap();
    assert_eq!(
        card.verify_authenticate_session(&wrong_id).unwrap_err(),
        SecureChannelError::VerifyFailed
    );
    assert_eq!(card.security_level, SecurityLevel::NoSecurityLevel);
}

#[test]
fn a_payload_of_the_wrong_length_is_a_protocol_error() {
    let (mut host, _) = pair();
    let cmd = host.authenticate_session();

    let (_, mut card) = pair();
    let mut short = copy_command(&cmd);
    short.data.pop();
    assert_eq!(
        card.verify_authenticate_session(&short).unwrap_err(),
        SecureChannelError::ProtocolError
    );
    assert_eq!(card.security_level, SecurityLevel::NoSecurityLevel);

    let (_, mut card) = pair();
    let mut long = copy_command(&cmd);
    long.data.push(0);
    assert_eq!(
        card.verify_authenticate_session(&long).unwrap_err(),
        SecureChannelError::ProtocolError
    );
    assert_eq!(card.security_level, SecurityLevel::NoSecurityLevel);

    // Even a payload too large for the wire format's length field is the
    // same recoverable protocol error.
    let (_, mut card) = pair();
    let mut oversized = copy_command(&cmd);
    oversized.data = vec![0u8; 70_000];
    assert_eq!(
        card.verify_authenticate_session(&oversized).unwrap_err(),
        SecureChannelError::ProtocolError
    );
    assert_eq!(card.security_level, SecurityLevel::NoSecurityLevel);
}

#[test]
fn a_nonempty_authentication_response_is_a_protocol_error() {
    let (mut host, mut card) = pair();
    let cmd = host.authenticate_session();
    assert!(card.verify_authenticate_session(&cmd).is_ok());

    assert_eq!(
        host.finish_authenticate_session(&Response::new(vec![0x90])).unwrap_err(),
        SecureChannelError::ProtocolError
    );
    assert_eq!(host.security_level, SecurityLevel::NoSecurityLevel);

    assert!(host.finish_authenticate_session(&Response::new(Vec::new())).is_ok());
    assert_eq!(host.security_level, SecurityLevel::Authenticated);
}

#[test]
fn mismatched_static_keys_fail_verification() {
    let keys = StaticKeys::new([0x50u8; 16], [0x51u8; 16]);
    let other_keys = StaticKeys::new([0x50u8; 16], [0x52u8; 16]);
    let host_challenge = Challenge::new([8, 7, 6, 5, 4, 3, 2, 1]);
    let card_challenge = Challenge::new([16, 15, 14, 13, 12, 11, 10, 9]);
    let id = Id::new(1).unwrap();
    let mut host = Channel::new(id, &keys, &host_challenge, &card_challenge);
    let mut card = Channel::new(id, &other_keys, &host_challenge, &card_challenge);

    let cmd = host.authenticate_session();
    assert_eq!(
        card.verify_authenticate_session(&cmd).unwrap_err(),
        SecureChannelError::VerifyFailed
    );
    assert_eq!(card.security_level, SecurityLevel::NoSecurityLevel);
}
