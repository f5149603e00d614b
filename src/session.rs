//! Connection states: the node's link to the root node, and the life of a
//! direct session between two nodes.
use vstd::prelude::*;

use crate::identity::NodeInfo;

verus! {

/// The state of a node's connection to the root node.
#[derive(Clone, Copy, Debug, PartialEq, Eq, Structural)]
pub enum RootNodeState {
    Connected,
    Disconnect,
    Connecting,
}

/// Why a direct session ended.
#[derive(Clone, Copy, Debug, PartialEq, Eq, Structural)]
pub enum CloseReason {
    /// The handshake did not complete (wrong certificate, no answer).
    HandshakeFailed,
    /// This side closed it, with an application code.
    Local(u32),
    /// The other side closed it, with an application code.
    Remote(u32),
    /// The connection broke.
    Lost,
}

/// The life of a direct session between two nodes.
#[derive(Clone, Copy, Debug, PartialEq, Eq, Structural)]
pub enum SessionState {
    /// This side dialed and waits for the handshake.
    Dialing,
    /// This side accepts an incoming handshake.
    Accepting,
    Established,
    /// Terminal: a closed session is never reopened.
    Closed(CloseReason),
}

/// What can happen to a session.
#[derive(Clone, Copy, Debug, PartialEq, Eq, Structural)]
pub enum SessionEvent {
    HandshakeCompleted,
    HandshakeFailed,
    Closed(CloseReason),
}

/// The state after `event`. A handshake completes only a session that
/// waits for one; a failed handshake closes a waiting session; a close
/// ends any session that is not closed yet, and a closed session stays as it
/// is whatever happens.
pub open spec fn session_step(state: SessionState, event: SessionEvent) -> SessionState {
    match state {
        SessionState::Closed(_) => state,
        SessionState::Established => match event {
            SessionEvent::Closed(reason) => SessionState::Closed(reason),
            _ => state,
        },
        _ => match event {
            SessionEvent::HandshakeCompleted => SessionState::Established,
            SessionEvent::HandshakeFailed => SessionState::Closed(CloseReason::HandshakeFailed),
            SessionEvent::Closed(reason) => SessionState::Closed(reason),
        },
    }
}

/// Computes `session_step`.
pub fn next_session_state(state: SessionState, event: SessionEvent) -> (r: SessionState)
    ensures
        r == session_step(state, event),
{
    match state {
        SessionState::Closed(_) => state,
        SessionState::Established => match event {
            SessionEvent::Closed(reason) => SessionState::Closed(reason),
            _ => state,
        },
        _ => match event {
            SessionEvent::HandshakeCompleted => SessionState::Established,
            SessionEvent::HandshakeFailed => SessionState::Closed(CloseReason::HandshakeFailed),
            SessionEvent::Closed(reason) => SessionState::Closed(reason),
        },
    }
}

/// The state after each of `events` in turn.
pub open spec fn session_run(state: SessionState, events: Seq<SessionEvent>) -> SessionState
    decreases events.len(),
{
    if events.len() == 0 {
        state
    } else {
        session_run(session_step(state, events[0]), events.drop_first())
    }
}

/// A closed session stays closed, with the same reason, whatever follows.
pub proof fn lemma_closed_is_terminal(reason: CloseReason, events: Seq<SessionEvent>)
    ensures
        session_run(SessionState::Closed(reason), events) == SessionState::Closed(reason),
    decreases events.len(),
{
    if events.len() > 0 {
        lemma_closed_is_terminal(reason, events.drop_first());
    }
}

/// A direct session with another node, from this side.
pub struct PeerSession {
    /// Who the other node says it is, once it has said so.
    pub remote_identity: Option<NodeInfo>,
    pub state: SessionState,
}

impl PeerSession {
    /// A session this side dials.
    pub fn dialing() -> (r: PeerSession)
        ensures
            r.state == SessionState::Dialing,
            r.remote_identity is None,
    {
        PeerSession { remote_identity: None, state: SessionState::Dialing }
    }

    /// A session this side accepts.
    pub fn accepting() -> (r: PeerSession)
        ensures
            r.state == SessionState::Accepting,
            r.remote_identity is None,
    {
        PeerSession { remote_identity: None, state: SessionState::Accepting }
    }

    /// Follows `event`.
    pub fn on_event(&mut self, event: SessionEvent)
        ensures
            final(self).state == session_step(old(self).state, event),
            final(self).remote_identity == old(self).remote_identity,
    {
        self.state = next_session_state(self.state, event);
    }

    /// Records the identity the other node sent. It is taken only on an
    /// established session: before the handshake nothing has come from the
    /// peer, and after the close nothing more does.
    pub fn learn_identity(&mut self, info: NodeInfo)
        ensures
            final(self).state == old(self).state,
            old(self).state == SessionState::Established ==> final(self).remote_identity == Some(
                info,
            ),
            old(self).state != SessionState::Established ==> final(self).remote_identity == old(
                self,
            ).remote_identity,
    {
        if self.state == SessionState::Established {
            self.remote_identity = Some(info);
        }
    }

    pub fn is_closed(&self) -> (r: bool)
        ensures
            r == (self.state is Closed),
    {
        match self.state {
            SessionState::Closed(_) => true,
            _ => false,
        }
    }
}

} // verus!
