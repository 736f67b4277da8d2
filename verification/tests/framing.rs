//! The value types and command framing around the channel.

use scp03::command::{Command, CommandType, Response};
use scp03::channel::Id;
use scp03::types::{Challenge, Context, Cryptogram, StaticKeys};

#[test]
fn command_framing_keeps_every_field() {
    let cmd = Command::new_with_mac(
        CommandType::CreateSession,
        Id::new(9).unwrap(),
        &[0xaa, 0xbb],
        &[1, 2, 3, 4, 5, 6, 7, 8],
    );
    assert_eq!(cmd.command_type, CommandType::CreateSession);
    assert_eq!(cmd.session_id.to_u8(), 9);
    assert_eq!(cmd.data, vec![0xaa, 0xbb]);
    assert_eq!(cmd.mac, [1, 2, 3, 4, 5, 6, 7, 8]);
    // length field: 1 type byte + 2 data bytes + 8 MAC bytes
    assert_eq!(cmd.len(), 11);
}

#[test]
fn command_type_wire_bytes() {
    assert_eq!(CommandType::Echo.to_u8(), 0x01);
    assert_eq!(CommandType::CreateSession.to_u8(), 0x03);
    assert_eq!(CommandType::AuthSession.to_u8(), 0x04);
}

#[test]
fn response_exposes_its_body() {
    let empty = Response::new(Vec::new());
    assert!(empty.body().is_empty());
    let full = Response::new(vec![1, 2, 3]);
    assert_eq!(full.body().as_slice(), &[1, 2, 3]);
}

#[test]
fn value_types_round_trip_their_bytes() {
    let challenge = Challenge::new([1, 2, 3, 4, 5, 6, 7, 8]);
    assert_eq!(challenge.as_slice(), &[1, 2, 3, 4, 5, 6, 7, 8]);

    let cryptogram = Cryptogram::from_slice(&[9, 8, 7, 6, 5, 4, 3, 2]);
    assert_eq!(cryptogram.as_slice(), &[9, 8, 7, 6, 5, 4, 3, 2]);

    let context = Context::from_challenges(&challenge, &Challenge::new([0; 8]));
    assert_eq!(context.as_slice(), &[1, 2, 3, 4, 5, 6, 7, 8, 0, 0, 0, 0, 0, 0, 0, 0]);

    let keys = StaticKeys::new([3; 16], [4; 16]);
    assert_eq!(keys.enc_key, [3; 16]);
    assert_eq!(keys.mac_key, [4; 16]);
}
