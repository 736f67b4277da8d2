//! Command and response framing.  The exact field order and sizes are part of
//! the protocol contract: the MAC of a command is computed over the chaining
//! value, the command-type byte, the big-endian length field, the session-id
//! byte, and the data, in that order.

use vstd::prelude::*;

use crate::bytes::push_slice;
use crate::channel::Id;
use crate::MAC_SIZE;

verus! {

/// The command-type tag carried in the first byte of a command.  Only the
/// tags this core itself needs are enumerated; the full command catalog lives
/// with the callers.
#[derive(Clone, Copy, Debug, PartialEq, Eq, Structural)]
pub enum CommandType {
    /// Echo the payload back (a plain, non-authentication command).
    Echo,
    /// Open a session: exchange challenges.
    CreateSession,
    /// Authenticate the session just created.
    AuthSession,
}

impl CommandType {
    /// The wire byte of this tag.
    pub open spec fn spec_to_u8(self) -> u8 {
        match self {
            CommandType::Echo => 0x01,
            CommandType::CreateSession => 0x03,
            CommandType::AuthSession => 0x04,
        }
    }

    /// Obtain the wire byte of this tag.
    pub fn to_u8(&self) -> (b: u8)
        ensures
            b == self.spec_to_u8(),
    {
        match self {
            CommandType::Echo => 0x01,
            CommandType::CreateSession => 0x03,
            CommandType::AuthSession => 0x04,
        }
    }
}

/// A session-scoped command: type tag, session id, payload, and the 8-byte
/// MAC trailer that binds it to the session transcript.
pub struct Command {
    /// The command-type tag.
    pub command_type: CommandType,
    /// The session the command belongs to.
    pub session_id: Id,
    /// The variable-length payload.
    pub data: Vec<u8>,
    /// The MAC trailer: the first 8 bytes of the full 16-byte tag.
    pub mac: [u8; 8],
}

impl Command {
    /// The value of the command's two-byte length field: the type byte, the
    /// payload, and the MAC trailer.
    pub open spec fn spec_len(&self) -> int {
        1 + self.data@.len() + MAC_SIZE
    }

    /// Assemble a command from its fields, copying the payload.
    pub fn new_with_mac(command_type: CommandType, session_id: Id, data: &[u8], mac: &[u8; 8]) -> (c:
        Command)
        requires
            data@.len() + 1 + MAC_SIZE <= usize::MAX,
        ensures
            c.command_type == command_type,
            c.session_id == session_id,
            c.data@ == data@,
            c.mac@ == mac@,
    {
        let mut payload: Vec<u8> = Vec::new();
        push_slice(&mut payload, data);
        Command { command_type, session_id, data: payload, mac: *mac }
    }

    /// The value of the command's length field.
    pub fn len(&self) -> (n: usize)
        requires
            self.data@.len() + 1 + MAC_SIZE <= usize::MAX,
        ensures
            n == self.spec_len(),
    {
        1 + self.data.len() + MAC_SIZE
    }
}

/// The body of a response to a command; possibly empty.  The response to the
/// authentication command must have an empty body.
pub struct Response(pub Vec<u8>);

impl Response {
    /// Wrap a response body.
    pub fn new(body: Vec<u8>) -> (r: Response)
        ensures
            r.0@ == body@,
    {
        Response(body)
    }

    /// Borrow the response body.
    pub fn body(&self) -> (b: &Vec<u8>)
        ensures
            b@ == self.0@,
    {
        &self.0
    }
}

} // verus!
