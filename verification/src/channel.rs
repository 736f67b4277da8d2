//! The secure-channel session object: session identifiers, the security-level
//! state machine, session key derivation, cryptogram computation, and the
//! per-command MAC chain that binds every command to the whole prior
//! transcript of its session.

use vstd::prelude::*;

use crate::bytes::first_half;
use crate::bytes::push_slice;
use crate::bytes::to_block;
use crate::command::Command;
use crate::command::CommandType;
use crate::command::Response;
use crate::crypto::aes_cmac;
use crate::crypto::clear_key;
use crate::crypto::cmac_aes128;
use crate::crypto::ct_eq;
use crate::error::SecureChannelError;
use crate::kdf;
use crate::kdf::be16;
use crate::kdf::kdf_output;
use crate::types::Challenge;
use crate::types::Context;
use crate::types::Cryptogram;
use crate::types::StaticKeys;
use crate::CHAINING_VALUE_SIZE;
use crate::CRYPTOGRAM_SIZE;
use crate::KEY_SIZE;
use crate::MAC_SIZE;

verus! {

/// Maximum session identifier the protocol allows.
pub const MAX_SESSION_ID: u8 = 16;

/// Derivation constant of the card cryptogram.
pub const CARD_CRYPTOGRAM_CONSTANT: u8 = 0;

/// Derivation constant of the host cryptogram.
pub const HOST_CRYPTOGRAM_CONSTANT: u8 = 1;

/// Derivation constant of the session encryption key.
pub const ENC_KEY_CONSTANT: u8 = 4;

/// Derivation constant of the session command-MAC key.
pub const MAC_KEY_CONSTANT: u8 = 6;

/// Derivation constant of the session response-MAC key.
pub const RMAC_KEY_CONSTANT: u8 = 7;

/// Session/channel identifier: an integer in `[0, MAX_SESSION_ID]`.
#[derive(Clone, Copy, Debug, Eq, Hash, Ord, PartialEq, PartialOrd, Structural)]
pub struct Id(pub u8);

impl Id {
    /// Create a session identifier from a byte, rejecting values above the
    /// protocol maximum.
    pub fn new(id: u8) -> (r: Result<Id, SecureChannelError>)
        ensures
            r is Ok <==> id <= MAX_SESSION_ID,
            r matches Ok(v) ==> v.0 == id,
            r matches Err(e) ==> e == SecureChannelError::ProtocolError,
    {
        if id > MAX_SESSION_ID {
            Err(SecureChannelError::ProtocolError)
        } else {
            Ok(Id(id))
        }
    }

    /// The next session identifier, validated against the same upper bound.
    pub fn succ(&self) -> (r: Result<Id, SecureChannelError>)
        requires
            self.0 < 255,
        ensures
            r is Ok <==> self.0 < MAX_SESSION_ID,
            r matches Ok(v) ==> v.0 == self.0 + 1,
            r matches Err(e) ==> e == SecureChannelError::ProtocolError,
    {
        Id::new(self.0 + 1)
    }

    /// The identifier as a byte.
    pub fn to_u8(&self) -> (b: u8)
        ensures
            b == self.0,
    {
        self.0
    }
}

/// The channel's authentication progress.  It only ever advances from
/// `NoSecurityLevel` to `Authenticated`; it never regresses within a session.
#[derive(Clone, Copy, Debug, Eq, PartialEq, Structural)]
pub enum SecurityLevel {
    /// The session is not (or not yet) authenticated.
    NoSecurityLevel,
    /// The authentication command has completed.
    Authenticated,
}

/// The all-zero chaining value a fresh channel starts from.  The chaining
/// value equals this exactly until the first command is authenticated.
pub open spec fn zero_chain() -> Seq<u8> {
    Seq::new(CHAINING_VALUE_SIZE as nat, |i: int| 0u8)
}

/// The message a command MAC is computed over: the current chaining value,
/// the command-type byte, the big-endian length field (type byte + data +
/// MAC trailer), the session-id byte, and the command data.
pub open spec fn mac_message(
    chain: Seq<u8>,
    command_type: CommandType,
    session_id: u8,
    data: Seq<u8>,
) -> Seq<u8> {
    chain + seq![command_type.spec_to_u8()] + be16(1 + data.len() + MAC_SIZE) + seq![session_id]
        + data
}

/// The full 16-byte tag of a command: the CMAC of the command message under
/// the session command-MAC key.  It becomes the channel's next chaining
/// value; its first 8 bytes are the command's MAC trailer.
pub open spec fn next_chaining_value(
    mac_key: Seq<u8>,
    chain: Seq<u8>,
    command_type: CommandType,
    session_id: u8,
    data: Seq<u8>,
) -> Seq<u8> {
    cmac_aes128(mac_key, mac_message(chain, command_type, session_id, data))
}

/// SCP03 secure channel: one mutable session object per session.
pub struct Channel {
    /// Identifier of this channel (a.k.a. session id).
    pub id: Id,
    /// External authentication state.
    pub security_level: SecurityLevel,
    /// Derivation context: host challenge followed by card challenge.
    pub context: Context,
    /// Session encryption key (S-ENC).
    pub enc_key: [u8; 16],
    /// Session command-MAC key (S-MAC).
    pub mac_key: [u8; 16],
    /// Session response-MAC key (S-RMAC).
    pub rmac_key: [u8; 16],
    /// Chaining value included when computing command MACs.
    pub mac_chaining_value: [u8; 16],
}

impl Channel {
    /// The card cryptogram of this session, as a byte sequence.
    pub open spec fn spec_card_cryptogram(&self) -> Seq<u8> {
        kdf_output(
            self.mac_key@,
            CARD_CRYPTOGRAM_CONSTANT,
            self.context.0@,
            CRYPTOGRAM_SIZE as int,
        )
    }

    /// The host cryptogram of this session, as a byte sequence.
    pub open spec fn spec_host_cryptogram(&self) -> Seq<u8> {
        kdf_output(
            self.mac_key@,
            HOST_CRYPTOGRAM_CONSTANT,
            self.context.0@,
            CRYPTOGRAM_SIZE as int,
        )
    }

    /// A channel on which no command has yet been authenticated: the state
    /// the authentication step must start from.
    pub open spec fn pristine(&self) -> bool {
        &&& self.security_level is NoSecurityLevel
        &&& self.mac_chaining_value@ == zero_chain()
    }

    /// Whether the verifier role accepts `command` as the authentication
    /// command of this channel's session: the payload is exactly the host
    /// cryptogram and the MAC trailer is the first half of the tag computed
    /// over the command under this channel's state.
    pub open spec fn accepts_auth_command(&self, command: &Command) -> bool {
        &&& command.data@.len() == CRYPTOGRAM_SIZE
        &&& command.data@ == self.spec_host_cryptogram()
        &&& command.mac@ == next_chaining_value(
            self.mac_key@,
            self.mac_chaining_value@,
            command.command_type,
            command.session_id.0,
            command.data@,
        ).take(MAC_SIZE as int)
    }

    /// Create a channel from a session id, the static keys, and the two
    /// challenges.  Derives the three session keys (each with its own
    /// derivation constant, so they are mutually independent), sets the
    /// security level to `NoSecurityLevel`, and zeroes the chaining value.
    pub fn new(
        id: Id,
        static_keys: &StaticKeys,
        host_challenge: &Challenge,
        card_challenge: &Challenge,
    ) -> (c: Channel)
        ensures
            c.id == id,
            c.security_level is NoSecurityLevel,
            c.context.0@ == host_challenge.0@ + card_challenge.0@,
            c.enc_key@ == kdf_output(
                static_keys.enc_key@,
                ENC_KEY_CONSTANT,
                c.context.0@,
                KEY_SIZE as int,
            ),
            c.mac_key@ == kdf_output(
                static_keys.mac_key@,
                MAC_KEY_CONSTANT,
                c.context.0@,
                KEY_SIZE as int,
            ),
            c.rmac_key@ == kdf_output(
                static_keys.mac_key@,
                RMAC_KEY_CONSTANT,
                c.context.0@,
                KEY_SIZE as int,
            ),
            c.mac_chaining_value@ == zero_chain(),
            c.pristine(),
    {
        let context = Context::from_challenges(host_challenge, card_challenge);
        let enc_key = derive_key(&static_keys.enc_key, ENC_KEY_CONSTANT, &context);
        let mac_key = derive_key(&static_keys.mac_key, MAC_KEY_CONSTANT, &context);
        let rmac_key = derive_key(&static_keys.mac_key, RMAC_KEY_CONSTANT, &context);
        let mac_chaining_value = [0u8; 16];
        assert(mac_chaining_value@ =~= zero_chain());
        Channel {
            id,
            security_level: SecurityLevel::NoSecurityLevel,
            context,
            enc_key,
            mac_key,
            rmac_key,
            mac_chaining_value,
        }
    }

    /// The card's cryptogram for this session.  Pure: repeated calls on the
    /// same channel return the same value.
    pub fn card_cryptogram(&self) -> (c: Cryptogram)
        ensures
            c.0@ == self.spec_card_cryptogram(),
    {
        let bytes = kdf::derive(
            &self.mac_key,
            CARD_CRYPTOGRAM_CONSTANT,
            &self.context,
            CRYPTOGRAM_SIZE,
        );
        Cryptogram::from_slice(bytes.as_slice())
    }

    /// The host's cryptogram for this session.  Pure: repeated calls on the
    /// same channel return the same value.
    pub fn host_cryptogram(&self) -> (c: Cryptogram)
        ensures
            c.0@ == self.spec_host_cryptogram(),
    {
        let bytes = kdf::derive(
            &self.mac_key,
            HOST_CRYPTOGRAM_CONSTANT,
            &self.context,
            CRYPTOGRAM_SIZE,
        );
        Cryptogram::from_slice(bytes.as_slice())
    }

    /// Compute the full command tag: the CMAC, under the session command-MAC
    /// key, of the chaining value, the command-type byte, the length field,
    /// the session-id byte, and the data.
    fn command_tag(&self, command_type: CommandType, session_id: u8, data: &[u8]) -> (tag: [u8; 16])
        requires
            data@.len() + 1 + MAC_SIZE <= u16::MAX,
        ensures
            tag@ == next_chaining_value(
                self.mac_key@,
                self.mac_chaining_value@,
                command_type,
                session_id,
                data@,
            ),
    {
        let mut msg: Vec<u8> = Vec::new();
        push_slice(&mut msg, vstd::array::array_as_slice(&self.mac_chaining_value));
        msg.push(command_type.to_u8());
        let n: usize = 1 + data.len() + MAC_SIZE;
        msg.push((n / 0x100) as u8);
        msg.push((n % 0x100) as u8);
        msg.push(session_id);
        push_slice(&mut msg, data);
        assert(msg@ =~= mac_message(self.mac_chaining_value@, command_type, session_id, data@));
        aes_cmac(&self.mac_key, msg.as_slice())
    }

    /// Compute a command with its MAC trailer and advance the chaining value
    /// to the command's full 16-byte tag, binding every later command to this
    /// one.  The trailer is the tag's first 8 bytes.
    pub fn command_with_mac(&mut self, command_type: CommandType, command_data: &[u8]) -> (cmd:
        Command)
        requires
            command_data@.len() + 1 + MAC_SIZE <= u16::MAX,
        ensures
            final(self).mac_chaining_value@ == next_chaining_value(
                old(self).mac_key@,
                old(self).mac_chaining_value@,
                command_type,
                old(self).id.0,
                command_data@,
            ),
            cmd.command_type == command_type,
            cmd.session_id == old(self).id,
            cmd.data@ == command_data@,
            cmd.mac@ == final(self).mac_chaining_value@.take(MAC_SIZE as int),
            final(self).id == old(self).id,
            final(self).security_level == old(self).security_level,
            final(self).context == old(self).context,
            final(self).enc_key == old(self).enc_key,
            final(self).mac_key == old(self).mac_key,
            final(self).rmac_key == old(self).rmac_key,
    {
        let tag = self.command_tag(command_type, self.id.to_u8(), command_data);
        self.mac_chaining_value = tag;
        let trailer = first_half(&tag);
        Command::new_with_mac(command_type, self.id, command_data, &trailer)
    }

    /// Compute the authentication command: the host cryptogram sent under a
    /// MAC, performing the session's first chaining-value update.  Callable
    /// only on a pristine channel (a non-pristine one indicates caller
    /// misuse, not adversarial input).
    pub fn authenticate_session(&mut self) -> (cmd: Command)
        requires
            old(self).pristine(),
        ensures
            cmd.command_type is AuthSession,
            cmd.session_id == old(self).id,
            cmd.data@ == old(self).spec_host_cryptogram(),
            cmd.data@.len() == CRYPTOGRAM_SIZE,
            cmd.mac@ == final(self).mac_chaining_value@.take(MAC_SIZE as int),
            final(self).mac_chaining_value@ == next_chaining_value(
                old(self).mac_key@,
                old(self).mac_chaining_value@,
                CommandType::AuthSession,
                old(self).id.0,
                old(self).spec_host_cryptogram(),
            ),
            final(self).security_level is NoSecurityLevel,
            final(self).id == old(self).id,
            final(self).context == old(self).context,
            final(self).enc_key == old(self).enc_key,
            final(self).mac_key == old(self).mac_key,
            final(self).rmac_key == old(self).rmac_key,
    {
        let host_cryptogram = self.host_cryptogram();
        self.command_with_mac(CommandType::AuthSession, host_cryptogram.as_slice())
    }

    /// Accept the response to the authentication command.  The protocol's
    /// authentication step carries no response payload: an empty body
    /// advances the channel to `Authenticated`; a non-empty one is a protocol
    /// error and the security level does not advance.
    pub fn finish_authenticate_session(&mut self, response: &Response) -> (r: Result<
        (),
        SecureChannelError,
    >)
        ensures
            response.0@.len() == 0 ==> {
                &&& r is Ok
                &&& final(self).security_level is Authenticated
                &&& final(self).id == old(self).id
                &&& final(self).context == old(self).context
                &&& final(self).enc_key == old(self).enc_key
                &&& final(self).mac_key == old(self).mac_key
                &&& final(self).rmac_key == old(self).rmac_key
                &&& final(self).mac_chaining_value == old(self).mac_chaining_value
            },
            response.0@.len() != 0 ==> {
                &&& r == Err::<(), SecureChannelError>(SecureChannelError::ProtocolError)
                &&& *final(self) == *old(self)
            },
    {
        if response.body().len() != 0 {
            return Err(SecureChannelError::ProtocolError);
        }
        self.security_level = SecurityLevel::Authenticated;
        Ok(())
    }

    /// Verify a received host authentication command (the verifier role,
    /// simulating the card side).  Checks the payload length, compares the
    /// payload against the expected host cryptogram, then verifies the
    /// command MAC; only if all three pass does the security level advance.
    /// On MAC success the chaining value advances exactly as on the
    /// initiator's side; every failure leaves the channel unchanged.
    /// Callable only on a pristine channel.
    pub fn verify_authenticate_session(&mut self, command: &Command) -> (r: Result<
        (),
        SecureChannelError,
    >)
        requires
            old(self).pristine(),
        ensures
            old(self).accepts_auth_command(command) ==> {
                &&& r is Ok
                &&& final(self).security_level is Authenticated
                &&& final(self).mac_chaining_value@ == next_chaining_value(
                    old(self).mac_key@,
                    old(self).mac_chaining_value@,
                    command.command_type,
                    command.session_id.0,
                    command.data@,
                )
                &&& final(self).id == old(self).id
                &&& final(self).context == old(self).context
                &&& final(self).enc_key == old(self).enc_key
                &&& final(self).mac_key == old(self).mac_key
                &&& final(self).rmac_key == old(self).rmac_key
            },
            command.data@.len() != CRYPTOGRAM_SIZE ==> {
                &&& r == Err::<(), SecureChannelError>(SecureChannelError::ProtocolError)
                &&& *final(self) == *old(self)
            },
            !old(self).accepts_auth_command(command) && command.data@.len() == CRYPTOGRAM_SIZE
                ==> {
                &&& r == Err::<(), SecureChannelError>(SecureChannelError::VerifyFailed)
                &&& *final(self) == *old(self)
            },
    {
        if command.data.len() != CRYPTOGRAM_SIZE {
            return Err(SecureChannelError::ProtocolError);
        }
        let expected_host_cryptogram = self.host_cryptogram();
        if !ct_eq(command.data.as_slice(), expected_host_cryptogram.as_slice()) {
            return Err(SecureChannelError::VerifyFailed);
        }
        match self.verify_command_mac(command) {
            Ok(()) => {
                self.security_level = SecurityLevel::Authenticated;
                Ok(())
            },
            Err(e) => Err(e),
        }
    }

    /// Verify a command's MAC trailer against this channel's own state, in
    /// constant time.  On success the chaining value advances to the full
    /// tag, exactly as on the initiator's side; on mismatch the channel is
    /// unchanged.
    pub fn verify_command_mac(&mut self, command: &Command) -> (r: Result<(), SecureChannelError>)
        requires
            command.data@.len() + 1 + MAC_SIZE <= u16::MAX,
        ensures
            ({
                let tag = next_chaining_value(
                    old(self).mac_key@,
                    old(self).mac_chaining_value@,
                    command.command_type,
                    command.session_id.0,
                    command.data@,
                );
                &&& command.mac@ == tag.take(MAC_SIZE as int) ==> {
                    &&& r is Ok
                    &&& final(self).mac_chaining_value@ == tag
                    &&& final(self).security_level == old(self).security_level
                    &&& final(self).id == old(self).id
                    &&& final(self).context == old(self).context
                    &&& final(self).enc_key == old(self).enc_key
                    &&& final(self).mac_key == old(self).mac_key
                    &&& final(self).rmac_key == old(self).rmac_key
                }
                &&& command.mac@ != tag.take(MAC_SIZE as int) ==> {
                    &&& r == Err::<(), SecureChannelError>(SecureChannelError::VerifyFailed)
                    &&& *final(self) == *old(self)
                }
            }),
    {
        let tag = self.command_tag(
            command.command_type,
            command.session_id.to_u8(),
            command.data.as_slice(),
        );
        let trailer = first_half(&tag);
        if !ct_eq(
            vstd::array::array_as_slice(&command.mac),
            vstd::array::array_as_slice(&trailer),
        ) {
            return Err(SecureChannelError::VerifyFailed);
        }
        self.mac_chaining_value = tag;
        Ok(())
    }
}

impl Drop for Channel {
    /// Overwrite the session keys with zeros when the channel is released,
    /// on every exit path.
    fn drop(&mut self)
        ensures
            forall|k: int| 0 <= k < 16 ==> final(self).enc_key@[k] == 0u8,
            forall|k: int| 0 <= k < 16 ==> final(self).mac_key@[k] == 0u8,
            forall|k: int| 0 <= k < 16 ==> final(self).rmac_key@[k] == 0u8,
        opens_invariants none
        no_unwind
    {
        clear_key(&mut self.enc_key);
        clear_key(&mut self.mac_key);
        clear_key(&mut self.rmac_key);
    }
}

/// Law: cryptogram stability.  Two computations of the card cryptogram on one
/// channel return the same bytes, and likewise for the host cryptogram.
pub proof fn lemma_cryptograms_stable(
    channel: Channel,
    card1: Cryptogram,
    card2: Cryptogram,
    host1: Cryptogram,
    host2: Cryptogram,
)
    requires
        card1.0@ == channel.spec_card_cryptogram(),
        card2.0@ == channel.spec_card_cryptogram(),
        host1.0@ == channel.spec_host_cryptogram(),
        host2.0@ == channel.spec_host_cryptogram(),
    ensures
        card1.0@ == card2.0@,
        host1.0@ == host2.0@,
{
}

/// Law: a genuine authentication command is accepted.  When two pristine
/// channels share the session id, the command-MAC key, and the context, a
/// command with the shape the initiator's authentication step produces
/// satisfies the verifier's acceptance condition, so
/// `verify_authenticate_session` on the other channel returns `Ok` and
/// advances it to `Authenticated`.
pub proof fn lemma_mutual_authentication(host: Channel, card: Channel, cmd: Command)
    requires
        host.pristine(),
        card.pristine(),
        host.id == card.id,
        host.mac_key@ == card.mac_key@,
        host.context == card.context,
        cmd.command_type is AuthSession,
        cmd.session_id == host.id,
        cmd.data@ == host.spec_host_cryptogram(),
        cmd.data@.len() == CRYPTOGRAM_SIZE,
        cmd.mac@ == next_chaining_value(
            host.mac_key@,
            host.mac_chaining_value@,
            CommandType::AuthSession,
            host.id.0,
            host.spec_host_cryptogram(),
        ).take(MAC_SIZE as int),
    ensures
        card.accepts_auth_command(&cmd),
{
}

/// Law: a tampered authentication command is rejected.  If the payload or the
/// MAC trailer of an accepted command is changed in any single byte (the
/// other fields kept), the verifier's acceptance condition fails, so
/// `verify_authenticate_session` reports a verification failure and the
/// channel stays at `NoSecurityLevel`.  A change confined to the command-type
/// or session-id byte alters the MAC input instead; its rejection rests on
/// CMAC collision resistance, of which this model says nothing.
pub proof fn lemma_tampered_auth_command_rejected(
    card: Channel,
    genuine: Command,
    tampered: Command,
    i: int,
)
    requires
        card.accepts_auth_command(&genuine),
        tampered.command_type == genuine.command_type,
        tampered.session_id == genuine.session_id,
        tampered.data@.len() == genuine.data@.len(),
        0 <= i,
        (i < tampered.data@.len() && tampered.data@[i] != genuine.data@[i] && tampered.mac@
            == genuine.mac@) || (i < MAC_SIZE && tampered.mac@[i] != genuine.mac@[i]
            && tampered.data@ == genuine.data@),
    ensures
        !card.accepts_auth_command(&tampered),
{
}

/// Derive one 16-byte key from a parent key, a derivation constant, and the
/// session context, with the SCP03 KDF.
pub fn derive_key(parent_key: &[u8; 16], derivation_constant: u8, context: &Context) -> (key: [u8;
    16])
    ensures
        key@ == kdf_output(parent_key@, derivation_constant, context.0@, KEY_SIZE as int),
{
    let out = kdf::derive(parent_key, derivation_constant, context, KEY_SIZE);
    to_block(out.as_slice())
}

} // verus!
