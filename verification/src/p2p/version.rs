//! Version handshake logic.
//!
//! The handshake protocol:
//! 1. Both sides send Version message
//! 2. Upon receiving Version, validate and send VersionAck
//! 3. Connection is established when both sides have sent and received VersionAck
use vstd::prelude::*;
use crate::assoc_map::bytes_eq;
use crate::p2p::error::{P2pError, P2pResult};
use crate::p2p::messages::{Message, VersionMessage};
use crate::p2p::net::SocketAddress;
use crate::text::{hex, hex_string};
use crate::p2p::clock::unix_time_secs;

verus! {

/// Current protocol version.
pub const PROTOCOL_VERSION: u32 = 1;

/// The version message announcing our chain, stamped with `timestamp`.
pub open spec fn spec_version_message(
    genesis_hash: [u8; 32],
    best_height: u64,
    best_hash: [u8; 32],
    user_agent: Seq<char>,
    listen_addr: Option<SocketAddress>,
    timestamp: u64,
    msg: VersionMessage,
) -> bool {
    &&& msg.protocol_version == PROTOCOL_VERSION
    &&& msg.genesis_hash == genesis_hash
    &&& msg.best_height == best_height
    &&& msg.best_hash == best_hash
    &&& msg.user_agent@ == user_agent
    &&& msg.timestamp == timestamp
    &&& msg.listen_addr == listen_addr
}

/// Create a version message for handshake, stamped with `timestamp`
/// (seconds since the Unix epoch).
pub fn create_version_message_at(
    genesis_hash: [u8; 32],
    best_height: u64,
    best_hash: [u8; 32],
    user_agent: &str,
    listen_addr: Option<SocketAddress>,
    timestamp: u64,
) -> (r: VersionMessage)
    ensures
        spec_version_message(
            genesis_hash,
            best_height,
            best_hash,
            user_agent@,
            listen_addr,
            timestamp,
            r,
        ),
{
    VersionMessage {
        protocol_version: PROTOCOL_VERSION,
        genesis_hash,
        best_height,
        best_hash,
        user_agent: String::from_str(user_agent),
        timestamp,
        listen_addr,
    }
}

/// Create a version message for handshake, stamped with the current time.
pub fn create_version_message(
    genesis_hash: [u8; 32],
    best_height: u64,
    best_hash: [u8; 32],
    user_agent: &str,
    listen_addr: Option<SocketAddress>,
) -> (r: VersionMessage)
    ensures
        spec_version_message(
            genesis_hash,
            best_height,
            best_hash,
            user_agent@,
            listen_addr,
            r.timestamp,
            r,
        ),
{
    let timestamp = unix_time_secs();
    create_version_message_at(genesis_hash, best_height, best_hash, user_agent, listen_addr, timestamp)
}

/// Helper to encode bytes as hex for error messages.
pub fn hex_encode(bytes: &[u8; 32]) -> (r: String)
    ensures
        r@ == hex(bytes@),
{
    hex_string(bytes.as_slice())
}

/// The outcome of validating a received version message against our genesis hash.
pub open spec fn spec_validate_version(received: VersionMessage, our_genesis_hash: [u8; 32]) -> Result<(), (u32, bool)> {
    if received.protocol_version != PROTOCOL_VERSION {
        Err((received.protocol_version, false))
    } else if received.genesis_hash != our_genesis_hash {
        Err((received.protocol_version, true))
    } else {
        Ok(())
    }
}

/// Validate a received version message.
///
/// Checks:
/// - Protocol version is compatible
/// - Genesis hash matches
pub fn validate_version(received: &VersionMessage, our_genesis_hash: [u8; 32]) -> (r: P2pResult<()>)
    ensures
        received.protocol_version != PROTOCOL_VERSION ==> r == Err::<(), P2pError>(
            P2pError::IncompatibleVersion {
                peer_version: received.protocol_version,
                our_version: PROTOCOL_VERSION,
            },
        ),
        received.protocol_version == PROTOCOL_VERSION && received.genesis_hash
            != our_genesis_hash ==> (r matches Err(P2pError::GenesisMismatch { expected, actual })
            && expected@ == hex(our_genesis_hash@) && actual@ == hex(received.genesis_hash@)),
        r is Ok <==> (received.protocol_version == PROTOCOL_VERSION && received.genesis_hash
            == our_genesis_hash),
{
    if received.protocol_version != PROTOCOL_VERSION {
        return Err(
            P2pError::IncompatibleVersion {
                peer_version: received.protocol_version,
                our_version: PROTOCOL_VERSION,
            },
        );
    }
    if !bytes_eq(&received.genesis_hash, &our_genesis_hash) {
        return Err(
            P2pError::GenesisMismatch {
                expected: hex_encode(&our_genesis_hash),
                actual: hex_encode(&received.genesis_hash),
            },
        );
    }
    Ok(())
}

/// Result of handshake validation.
#[derive(Clone, Debug, PartialEq, Eq)]
pub struct HandshakeResult {
    /// Protocol version agreed upon.
    pub protocol_version: u32,
    /// Peer's best block height.
    pub best_height: u64,
    /// Peer's best block hash.
    pub best_hash: [u8; 32],
    /// Peer's user agent.
    pub user_agent: String,
    /// Peer's listening address (if provided).
    pub listen_addr: Option<SocketAddress>,
}

/// What a completed handshake records of the peer's version message.
pub open spec fn result_of(msg: VersionMessage) -> HandshakeResult {
    HandshakeResult {
        protocol_version: msg.protocol_version,
        best_height: msg.best_height,
        best_hash: msg.best_hash,
        user_agent: msg.user_agent,
        listen_addr: msg.listen_addr,
    }
}

impl From<VersionMessage> for HandshakeResult {
    fn from(msg: VersionMessage) -> (r: Self) {
        HandshakeResult {
            protocol_version: msg.protocol_version,
            best_height: msg.best_height,
            best_hash: msg.best_hash,
            user_agent: msg.user_agent,
            listen_addr: msg.listen_addr,
        }
    }
}

impl vstd::std_specs::convert::FromSpecImpl<VersionMessage> for HandshakeResult {
    open spec fn obeys_from_spec() -> bool {
        true
    }

    open spec fn from_spec(msg: VersionMessage) -> HandshakeResult {
        result_of(msg)
    }
}

/// Handshake state machine.
#[derive(Clone, Debug, PartialEq, Eq)]
pub enum HandshakeState {
    /// Initial state, no messages sent.
    Initial,
    /// Version sent, waiting for peer's version.
    VersionSent,
    /// Version received, waiting for our version ack to be sent.
    VersionReceived(VersionMessage),
    /// Both versions exchanged, waiting for version ack.
    AwaitingAck(VersionMessage),
    /// Handshake complete.
    Complete(HandshakeResult),
    /// Handshake failed.
    Failed(String),
}

/// The state after we send our version, or `None` when that is not allowed.
pub open spec fn after_sent_version(s: HandshakeState) -> Option<HandshakeState> {
    match s {
        HandshakeState::Initial => Some(HandshakeState::VersionSent),
        HandshakeState::VersionReceived(msg) => Some(HandshakeState::AwaitingAck(msg)),
        _ => None,
    }
}

/// The state after the peer's (valid) version arrives, or `None` when it
/// was not expected.
pub open spec fn after_received_version(s: HandshakeState, msg: VersionMessage) -> Option<HandshakeState> {
    match s {
        HandshakeState::Initial => Some(HandshakeState::VersionReceived(msg)),
        HandshakeState::VersionSent => Some(HandshakeState::AwaitingAck(msg)),
        _ => None,
    }
}

/// The state after the peer's acknowledgement arrives, or `None` when it was
/// not expected.
pub open spec fn after_received_ack(s: HandshakeState) -> Option<HandshakeState> {
    match s {
        HandshakeState::AwaitingAck(msg) => Some(HandshakeState::Complete(result_of(msg))),
        _ => None,
    }
}

impl Default for HandshakeState {
    fn default() -> (r: Self)
        ensures
            r == HandshakeState::Initial,
    {
        HandshakeState::new()
    }
}

impl HandshakeState {
    /// Create initial handshake state.
    pub fn new() -> (r: Self)
        ensures
            r == HandshakeState::Initial,
    {
        HandshakeState::Initial
    }

    /// Process sending our version message.
    pub fn sent_version(&mut self) -> (r: P2pResult<()>)
        ensures
            match after_sent_version(*old(self)) {
                Some(s) => r is Ok && *final(self) == s,
                None => r is Err && *final(self) == *old(self),
            },
            r matches Err(e) ==> e is HandshakeFailed,
    {
        let mut current = HandshakeState::Initial;
        std::mem::swap(&mut current, self);
        match current {
            HandshakeState::Initial => {
                *self = HandshakeState::VersionSent;
                Ok(())
            },
            HandshakeState::VersionReceived(msg) => {
                *self = HandshakeState::AwaitingAck(msg);
                Ok(())
            },
            other => {
                *self = other;
                Err(P2pError::HandshakeFailed(String::from_str("Invalid state: cannot send version")))
            },
        }
    }

    /// Process receiving a version message, which is validated first.
    pub fn received_version(&mut self, msg: VersionMessage, our_genesis_hash: [u8; 32]) -> (r: P2pResult<()>)
        ensures
            spec_validate_version(msg, our_genesis_hash) is Err ==> *final(self) == *old(self)
                && r is Err && !(r matches Err(e) && e is HandshakeFailed),
            spec_validate_version(msg, our_genesis_hash) is Ok ==> match after_received_version(
                *old(self),
                msg,
            ) {
                Some(s) => r is Ok && *final(self) == s,
                None => r is Err && *final(self) == *old(self),
            },
    {
        match validate_version(&msg, our_genesis_hash) {
            Err(e) => {
                return Err(e);
            },
            Ok(()) => {},
        }
        let mut current = HandshakeState::Initial;
        std::mem::swap(&mut current, self);
        match current {
            HandshakeState::Initial => {
                *self = HandshakeState::VersionReceived(msg);
                Ok(())
            },
            HandshakeState::VersionSent => {
                *self = HandshakeState::AwaitingAck(msg);
                Ok(())
            },
            other => {
                *self = other;
                Err(P2pError::HandshakeFailed(String::from_str("Invalid state: unexpected version")))
            },
        }
    }

    /// Process sending version ack; the state does not change.
    pub fn sent_version_ack(&mut self) -> (r: P2pResult<()>)
        ensures
            *final(self) == *old(self),
            r is Ok <==> (*old(self) is VersionReceived || *old(self) is AwaitingAck),
            r matches Err(e) ==> e is HandshakeFailed,
    {
        match self {
            HandshakeState::VersionReceived(_) | HandshakeState::AwaitingAck(_) => Ok(()),
            _ => Err(P2pError::HandshakeFailed(String::from_str("Invalid state: cannot send verack"))),
        }
    }

    /// Process receiving version ack.
    pub fn received_version_ack(&mut self) -> (r: P2pResult<()>)
        ensures
            match after_received_ack(*old(self)) {
                Some(s) => r is Ok && *final(self) == s,
                None => r is Err && *final(self) == *old(self),
            },
            r matches Err(e) ==> e is HandshakeFailed,
    {
        let mut current = HandshakeState::Initial;
        std::mem::swap(&mut current, self);
        match current {
            HandshakeState::AwaitingAck(msg) => {
                *self = HandshakeState::Complete(HandshakeResult::from(msg));
                Ok(())
            },
            other => {
                *self = other;
                Err(P2pError::HandshakeFailed(String::from_str("Invalid state: unexpected verack")))
            },
        }
    }

    /// Check if handshake is complete.
    pub fn is_complete(&self) -> (r: bool)
        ensures
            r == (*self is Complete),
    {
        matches!(self, HandshakeState::Complete(_))
    }

    /// Get the handshake result if complete.
    pub fn result(&self) -> (r: Option<&HandshakeResult>)
        ensures
            match *self {
                HandshakeState::Complete(res) => r == Some(&res),
                _ => r is None,
            },
    {
        match self {
            HandshakeState::Complete(r) => Some(r),
            _ => None,
        }
    }

    /// Get the next message to send, if any: our version (stamped with
    /// `timestamp`) before we have sent it, an acknowledgement once both
    /// versions are exchanged, nothing otherwise.
    pub fn next_message_at(
        &self,
        genesis_hash: [u8; 32],
        best_height: u64,
        best_hash: [u8; 32],
        user_agent: &str,
        listen_addr: Option<SocketAddress>,
        timestamp: u64,
    ) -> (r: Option<Message>)
        ensures
            (*self is Initial || *self is VersionReceived) ==> (r matches Some(Message::Version(v))
                && spec_version_message(
                genesis_hash,
                best_height,
                best_hash,
                user_agent@,
                listen_addr,
                timestamp,
                v,
            )),
            *self is AwaitingAck ==> r == Some(Message::VersionAck),
            (*self is VersionSent || *self is Complete || *self is Failed) ==> r is None,
    {
        match self {
            HandshakeState::Initial | HandshakeState::VersionReceived(_) => Some(
                Message::Version(
                    create_version_message_at(
                        genesis_hash,
                        best_height,
                        best_hash,
                        user_agent,
                        listen_addr,
                        timestamp,
                    ),
                ),
            ),
            HandshakeState::VersionSent => None,
            HandshakeState::AwaitingAck(_) => Some(Message::VersionAck),
            HandshakeState::Complete(_) => None,
            HandshakeState::Failed(_) => None,
        }
    }

    /// Get the next message to send, if any, stamping a version message with
    /// the current time.
    pub fn next_message(
        &self,
        genesis_hash: [u8; 32],
        best_height: u64,
        best_hash: [u8; 32],
        user_agent: &str,
        listen_addr: Option<SocketAddress>,
    ) -> (r: Option<Message>)
        ensures
            (*self is Initial || *self is VersionReceived) ==> (r matches Some(Message::Version(v))
                && spec_version_message(
                genesis_hash,
                best_height,
                best_hash,
                user_agent@,
                listen_addr,
                v.timestamp,
                v,
            )),
            *self is AwaitingAck ==> r == Some(Message::VersionAck),
            (*self is VersionSent || *self is Complete || *self is Failed) ==> r is None,
    {
        let timestamp = unix_time_secs();
        self.next_message_at(genesis_hash, best_height, best_hash, user_agent, listen_addr, timestamp)
    }
}

/// Whichever side speaks first, a valid version exchange followed by the
/// peer's acknowledgement completes the handshake with the peer's version:
/// sending then receiving (outbound) and receiving then sending (inbound)
/// lead to the same state, and no other order of these events completes it.
pub proof fn lemma_handshake_orders_agree(msg: VersionMessage)
    ensures
        after_sent_version(HandshakeState::Initial) matches Some(s1) && after_received_version(
            s1,
            msg,
        ) matches Some(s2) && after_received_ack(s2) == Some(
            HandshakeState::Complete(result_of(msg)),
        ),
        after_received_version(HandshakeState::Initial, msg) matches Some(t1) && after_sent_version(
            t1,
        ) matches Some(t2) && after_received_ack(t2) == Some(
            HandshakeState::Complete(result_of(msg)),
        ),
        after_received_ack(HandshakeState::Initial) is None,
        after_received_ack(HandshakeState::VersionSent) is None,
        after_received_ack(HandshakeState::VersionReceived(msg)) is None,
{
}

/// Only a state in which both versions were exchanged completes on an
/// acknowledgement, and completion records exactly the peer's version.
pub proof fn lemma_completion_needs_both_versions(s: HandshakeState)
    ensures
        after_received_ack(s) is Some <==> s is AwaitingAck,
        s matches HandshakeState::AwaitingAck(m) ==> after_received_ack(s) == Some(
            HandshakeState::Complete(result_of(m)),
        ),
        after_sent_version(s) matches Some(HandshakeState::AwaitingAck(m)) ==> s
            == HandshakeState::VersionReceived(m),
        forall|msg: VersionMessage|
            #[trigger] after_received_version(s, msg) matches Some(HandshakeState::AwaitingAck(m))
                ==> s == HandshakeState::VersionSent && m == msg,
{
}

} // verus!
