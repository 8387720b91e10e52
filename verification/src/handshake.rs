//! The one-shot listener handshake.
//!
//! Starting the background listener hands it a completion callback that
//! sends exactly one message into a single-producer, single-consumer
//! signal channel; the calling boundary call blocks until that one
//! message arrives.  This module is the state machine that consumes the
//! message: from `Starting`, the single received message settles the
//! handshake in exactly one terminal state — ready with the bound
//! address, or failed — and a settled handshake accepts no further
//! message.  A channel that closes without an answer counts as a startup
//! failure.

use crate::errors::BridgeError;
use vstd::prelude::*;

verus! {

/// What the listener's completion callback sends, exactly once, into
/// the signal channel.
pub enum ListenerMessage {
    /// The listener started and bound this address.
    Bound(String),
    /// The listener failed to start; the payload is its message.
    Refused(String),
}

/// The state of one handshake.
#[derive(PartialEq, Debug)]
pub enum HandshakeState {
    /// Waiting for the listener's single message.
    Starting,
    /// Terminal: the listener reported this bound address.
    Ready(String),
    /// Terminal: startup failed; the payload is the reported message.
    Failed(String),
}

/// The model of a listener message.
pub enum MessageVal {
    Bound(Seq<char>),
    Refused(Seq<char>),
}

/// The model of a handshake state.
pub enum HandshakeVal {
    Starting,
    Ready(Seq<char>),
    Failed(Seq<char>),
}

impl View for ListenerMessage {
    type V = MessageVal;

    open spec fn view(&self) -> MessageVal {
        match self {
            ListenerMessage::Bound(address) => MessageVal::Bound(address@),
            ListenerMessage::Refused(reason) => MessageVal::Refused(reason@),
        }
    }
}

impl View for HandshakeState {
    type V = HandshakeVal;

    open spec fn view(&self) -> HandshakeVal {
        match self {
            HandshakeState::Starting => HandshakeVal::Starting,
            HandshakeState::Ready(address) => HandshakeVal::Ready(address@),
            HandshakeState::Failed(reason) => HandshakeVal::Failed(reason@),
        }
    }
}

/// True when the handshake has reached one of its two terminal states.
pub open spec fn spec_terminal(state: HandshakeVal) -> bool {
    !(state is Starting)
}

/// The failure text recorded when the signal channel closes without an
/// answer.
pub open spec fn spec_closed_channel_reason() -> Seq<char> {
    "listener channel closed before reporting an address"@
}

/// The terminal state that receiving `message` settles the handshake to.
/// An absent message (the channel closed) counts as a startup failure.
pub open spec fn spec_settle(message: Option<MessageVal>) -> HandshakeVal {
    match message {
        Some(MessageVal::Bound(address)) => HandshakeVal::Ready(address),
        Some(MessageVal::Refused(reason)) => HandshakeVal::Failed(reason),
        None => HandshakeVal::Failed(spec_closed_channel_reason()),
    }
}

/// One handshake between the calling thread and the background listener.
pub struct Handshake {
    state: HandshakeState,
}

impl Handshake {
    /// The model of the handshake's current state.
    pub closed spec fn view(&self) -> HandshakeVal {
        self.state@
    }

    /// A handshake that has not yet received the listener's message.
    pub fn new() -> (handshake: Handshake)
        ensures
            handshake@ == HandshakeVal::Starting,
    {
        Handshake { state: HandshakeState::Starting }
    }

    /// Whether the handshake has settled.
    pub fn is_settled(&self) -> (settled: bool)
        ensures
            settled == spec_terminal(self@),
    {
        !matches!(self.state, HandshakeState::Starting)
    }

    /// Consumes the one message received from the signal channel (or its
    /// absence, when the channel closed) and settles the handshake: the
    /// bound address is returned and recorded on success, and a startup
    /// failure — reported or implied by the closed channel — is recorded
    /// and returned as a transport error.
    pub fn settle(&mut self, message: Option<ListenerMessage>) -> (result: Result<
        String,
        BridgeError,
    >)
        requires
            old(self)@ is Starting,
        ensures
            final(self)@ == spec_settle(
                match message {
                    Some(m) => Some(m@),
                    None => None,
                },
            ),
            spec_terminal(final(self)@),
            match final(self)@ {
                HandshakeVal::Ready(address) => result matches Ok(a) && a@ == address,
                HandshakeVal::Failed(reason) => result matches Err(e) && (e matches
                    BridgeError::TransportStartup(m) && m@ == reason),
                HandshakeVal::Starting => false,
            },
    {
        match message {
            Some(ListenerMessage::Bound(address)) => {
                self.state = HandshakeState::Ready(address.clone());
                Ok(address)
            },
            Some(ListenerMessage::Refused(reason)) => {
                self.state = HandshakeState::Failed(reason.clone());
                Err(BridgeError::TransportStartup(reason))
            },
            None => {
                let reason = "listener channel closed before reporting an address".to_owned();
                self.state = HandshakeState::Failed(reason.clone());
                Err(BridgeError::TransportStartup(reason))
            },
        }
    }
}

/// Law (handshake determinism): the one received message settles the
/// handshake in exactly one terminal outcome — ready exactly when the
/// listener reported a bound address, failed otherwise — and a settled
/// handshake is no longer starting, so it accepts no further message.
pub proof fn lemma_handshake_one_terminal(message: Option<MessageVal>)
    ensures
        spec_terminal(spec_settle(message)),
        spec_settle(message) is Ready <==> (message matches Some(MessageVal::Bound(_))),
        spec_settle(message) is Failed <==> !(message matches Some(MessageVal::Bound(_))),
{
}

} // verus!
