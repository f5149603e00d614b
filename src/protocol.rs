//! The rendezvous protocol: its messages, and the decisions that the root
//! node and the nodes take on each of them.
//!
//! Every exchange runs on a stream of its own over a node's connection to the
//! root node. The functions here decide; the caller moves the bytes.
use vstd::prelude::*;

use crate::address::SocketAddress;
use crate::identity::NodeInfo;
use crate::registry::{
    first_with_uuid, has_session, has_uuid, identities, with_entry, without_session, Registry, RegistryEntry,
};
use crate::session::RootNodeState;

verus! {

/// The failures that the core reports.
pub enum NodeError {
    /// An operation that needs the root connection came before there was one.
    NotRegistered,
    /// The root node knows no node of the requested identity.
    TargetNotFound,
    /// The direct handshake failed, or the peer's certificate could not be used.
    HandshakeFailed,
    /// A connection closed; the text says why.
    ConnectionLost(String),
    /// A message came that the current exchange does not expect.
    ProtocolViolation,
}

/// What a node needs to dial another directly: its name, the address the root
/// node sees it at, and the certificate it will present.
pub struct NodeAddrAndCert {
    pub name: String,
    pub addr: SocketAddress,
    pub cert: Vec<u8>,
}

/// Requests, each opening an exchange.
pub enum RequestDataPacket {
    /// A node to the root node: list me under this identity and certificate.
    RegisterNode { info: NodeInfo, cert: Vec<u8> },
    /// A node to the root node: take me off the list.
    UnregisterNode,
    /// A node to the root node: who is registered?
    GetRegisteredNodeList,
    /// A node to the root node: let me reach the node of this identity.
    ConnectNode { uuid: u128 },
    /// The root node to a registered node: send a packet toward `addr`.
    HolePunching { addr: SocketAddress },
}

/// Responses, each closing an exchange.
pub enum ResponseDataPacket {
    RegisteredNodeList(Vec<NodeInfo>),
    /// `None` when the target is unknown or could not be reached.
    ConnectNode(Option<NodeAddrAndCert>),
    /// The target node's acknowledgement of a hole-punching request.
    HolePunching,
}

/// One message on the wire.
pub enum DataPacket {
    Request(RequestDataPacket),
    Response(ResponseDataPacket),
}

/// What the root node does after a request.
pub enum RootAction {
    /// Nothing is sent.
    Ignore,
    /// This response goes back on the requester's stream.
    Reply(ResponseDataPacket),
    /// A stream is opened on the connection of `target_session` and a
    /// hole-punching request toward `requester_addr` sent on it; its answer is
    /// then handed to `complete_hole_punch` with `target`.
    PunchHole { target_session: u64, requester_addr: SocketAddress, target: NodeAddrAndCert },
}

/// `t` describes entry `e`: its name, its observed address, its certificate.
pub open spec fn describes(t: NodeAddrAndCert, e: RegistryEntry) -> bool {
    &&& t.name@ == e.identity.name@
    &&& t.addr == e.address
    &&& t.cert@ == e.certificate_der@
}

/// Asking session `target_session` to punch, with `target` for the reply, is
/// what a connect request for `uuid` calls for: both come from the first entry
/// of that identity.
pub open spec fn punches_first_entry(
    s: Seq<RegistryEntry>,
    uuid: u128,
    target_session: u64,
    target: NodeAddrAndCert,
) -> bool {
    exists|i: int|
        {
            &&& first_with_uuid(s, uuid, i)
            &&& target_session == s[i].session_id
            &&& describes(target, s[i])
        }
}

/// The root node's side of the protocol: the registry and what changes it.
pub struct RootNode {
    registry: Registry,
}

impl View for RootNode {
    type V = Seq<RegistryEntry>;

    closed spec fn view(&self) -> Seq<RegistryEntry> {
        self.registry@
    }
}

impl RootNode {
    /// At most one entry per session. `new` makes it hold and every method
    /// keeps it, and the registry is private, so it holds of every root node.
    pub open spec fn wf(&self) -> bool {
        crate::registry::unique_sessions(self@)
    }

    /// A root node with no node registered.
    pub fn new() -> (r: RootNode)
        ensures
            r@ == Seq::<RegistryEntry>::empty(),
            r.wf(),
    {
        RootNode { registry: Registry::new() }
    }

    /// The identities registered now.
    pub fn list(&self) -> (r: Vec<NodeInfo>)
        ensures
            r@ == identities(self@),
    {
        self.registry.list()
    }

    /// Takes the packet that session `session_id`, seen at `observed`, sent on
    /// a new stream, updates the registry, and says what to send.
    ///
    /// A registration is keyed by the session and records `observed` as the
    /// node's address. A connect request for an unknown identity is answered
    /// `None` at once, and no other node is contacted; for a known one the
    /// first entry of that identity is asked to punch a hole toward the
    /// requester. Packets that no node sends to the root node are ignored.
    pub fn handle(&mut self, session_id: u64, observed: SocketAddress, packet: DataPacket) -> (r:
        RootAction)
        requires
            old(self).wf(),
        ensures
            final(self).wf(),
            match packet {
                DataPacket::Request(RequestDataPacket::RegisterNode { info, cert }) => {
                    &&& final(self)@ == with_entry(
                        old(self)@,
                        (RegistryEntry {
                            session_id,
                            identity: info,
                            certificate_der: cert,
                            address: observed,
                        }),
                    )
                    &&& r is Ignore
                },
                DataPacket::Request(RequestDataPacket::UnregisterNode) => {
                    &&& final(self)@ == without_session(old(self)@, session_id)
                    &&& r is Ignore
                },
                DataPacket::Request(RequestDataPacket::GetRegisteredNodeList) => {
                    &&& final(self)@ == old(self)@
                    &&& match r {
                        RootAction::Reply(ResponseDataPacket::RegisteredNodeList(l)) => l@
                            == identities(old(self)@),
                        _ => false,
                    }
                },
                DataPacket::Request(RequestDataPacket::ConnectNode { uuid }) => {
                    &&& final(self)@ == old(self)@
                    &&& !has_uuid(old(self)@, uuid) ==> r == RootAction::Reply(
                        ResponseDataPacket::ConnectNode(None),
                    )
                    &&& has_uuid(old(self)@, uuid) ==> match r {
                        RootAction::PunchHole { target_session, requester_addr, target } => {
                            &&& requester_addr == observed
                            &&& punches_first_entry(old(self)@, uuid, target_session, target)
                        },
                        _ => false,
                    }
                },
                _ => final(self)@ == old(self)@ && r is Ignore,
            },
    {
        match packet {
            DataPacket::Request(RequestDataPacket::RegisterNode { info, cert }) => {
                self.registry.register(session_id, info, cert, observed);
                RootAction::Ignore
            },
            DataPacket::Request(RequestDataPacket::UnregisterNode) => {
                self.registry.unregister(session_id);
                RootAction::Ignore
            },
            DataPacket::Request(RequestDataPacket::GetRegisteredNodeList) => {
                RootAction::Reply(ResponseDataPacket::RegisteredNodeList(self.registry.list()))
            },
            DataPacket::Request(RequestDataPacket::ConnectNode { uuid }) => {
                match self.registry.resolve(uuid) {
                    Some(e) => {
                        let target = NodeAddrAndCert {
                            name: e.identity.name.clone(),
                            addr: e.address,
                            cert: copy_bytes(&e.certificate_der),
                        };
                        RootAction::PunchHole {
                            target_session: e.session_id,
                            requester_addr: observed,
                            target,
                        }
                    },
                    None => RootAction::Reply(ResponseDataPacket::ConnectNode(None)),
                }
            },
            _ => RootAction::Ignore,
        }
    }

    /// The connection of `session_id` closed: its entry goes, so that no
    /// later listing or lookup shows it.
    pub fn connection_lost(&mut self, session_id: u64)
        requires
            old(self).wf(),
        ensures
            final(self)@ == without_session(old(self)@, session_id),
            final(self).wf(),
    {
        self.registry.unregister(session_id);
    }
}

/// A copy of `b`.
fn copy_bytes(b: &Vec<u8>) -> (r: Vec<u8>)
    ensures
        r@ == b@,
{
    let mut r: Vec<u8> = Vec::new();
    let mut i: usize = 0;
    while i < b.len()
        invariant
            i <= b@.len(),
            r@ == b@.subrange(0, i as int),
        decreases b@.len() - i,
    {
        r.push(b[i]);
        i = i + 1;
    }
    r
}

/// The root node's answer to a connect request once the target had its turn:
/// the target's address and certificate when the target acknowledged, `None`
/// when it answered anything else or nothing (the stream could not be opened,
/// the wait ran out, or its connection went).
pub fn complete_hole_punch(target: NodeAddrAndCert, answer: Option<DataPacket>) -> (r:
    ResponseDataPacket)
    ensures
        match answer {
            Some(DataPacket::Response(ResponseDataPacket::HolePunching)) => r
                == ResponseDataPacket::ConnectNode(Some(target)),
            _ => r == ResponseDataPacket::ConnectNode(None),
        },
{
    match answer {
        Some(DataPacket::Response(ResponseDataPacket::HolePunching)) => {
            ResponseDataPacket::ConnectNode(Some(target))
        },
        _ => ResponseDataPacket::ConnectNode(None),
    }
}

/// A node's side of a hole-punching request from the root node: the address
/// to dial toward, and the acknowledgement to send once the dial has been
/// tried, whatever its outcome. Any other packet on such a stream is a
/// protocol violation.
pub fn hole_punch_target(packet: &DataPacket) -> (r: Result<(SocketAddress, DataPacket), NodeError>)
    ensures
        match *packet {
            DataPacket::Request(RequestDataPacket::HolePunching { addr }) => r == Ok::<
                (SocketAddress, DataPacket),
                NodeError,
            >((addr, DataPacket::Response(ResponseDataPacket::HolePunching))),
            _ => r == Err::<(SocketAddress, DataPacket), NodeError>(NodeError::ProtocolViolation),
        },
{
    match packet {
        DataPacket::Request(RequestDataPacket::HolePunching { addr }) => Ok(
            (*addr, DataPacket::Response(ResponseDataPacket::HolePunching)),
        ),
        _ => Err(NodeError::ProtocolViolation),
    }
}

/// The requester's reading of the root node's answer to a connect request.
pub fn read_connect_result(packet: DataPacket) -> (r: Result<NodeAddrAndCert, NodeError>)
    ensures
        match packet {
            DataPacket::Response(ResponseDataPacket::ConnectNode(Some(t))) => r == Ok::<
                NodeAddrAndCert,
                NodeError,
            >(t),
            DataPacket::Response(ResponseDataPacket::ConnectNode(None)) => r == Err::<
                NodeAddrAndCert,
                NodeError,
            >(NodeError::TargetNotFound),
            _ => r == Err::<NodeAddrAndCert, NodeError>(NodeError::ProtocolViolation),
        },
{
    match packet {
        DataPacket::Response(ResponseDataPacket::ConnectNode(Some(t))) => Ok(t),
        DataPacket::Response(ResponseDataPacket::ConnectNode(None)) => Err(
            NodeError::TargetNotFound,
        ),
        _ => Err(NodeError::ProtocolViolation),
    }
}

/// The requester's reading of the root node's answer to a list request.
pub fn read_node_list(packet: DataPacket) -> (r: Result<Vec<NodeInfo>, NodeError>)
    ensures
        match packet {
            DataPacket::Response(ResponseDataPacket::RegisteredNodeList(l)) => r == Ok::<
                Vec<NodeInfo>,
                NodeError,
            >(l),
            _ => r == Err::<Vec<NodeInfo>, NodeError>(NodeError::ProtocolViolation),
        },
{
    match packet {
        DataPacket::Response(ResponseDataPacket::RegisteredNodeList(l)) => Ok(l),
        _ => Err(NodeError::ProtocolViolation),
    }
}

/// A request to send to the root node, which needs the root connection to be
/// up: `NotRegistered` otherwise.
pub fn root_request(root: RootNodeState, request: RequestDataPacket) -> (r: Result<
    DataPacket,
    NodeError,
>)
    ensures
        root == RootNodeState::Connected ==> r == Ok::<DataPacket, NodeError>(
            DataPacket::Request(request),
        ),
        root != RootNodeState::Connected ==> r == Err::<DataPacket, NodeError>(
            NodeError::NotRegistered,
        ),
{
    match root {
        RootNodeState::Connected => Ok(DataPacket::Request(request)),
        _ => Err(NodeError::NotRegistered),
    }
}

/// Connection-loss cleanup: after the connection of session `sid` is lost,
/// no entry of that session is left (so what it registered is neither listed
/// nor resolved), every entry left was there before, and the entries of other
/// sessions stay.
pub proof fn lemma_lost_session_unlisted(s: Seq<RegistryEntry>, sid: u64)
    ensures
        !has_session(without_session(s, sid), sid),
        forall|k: int|
            0 <= k < without_session(s, sid).len() ==> s.contains(
                #[trigger] without_session(s, sid)[k],
            ),
        forall|i: int|
            0 <= i < s.len() && s[i].session_id != sid ==> without_session(s, sid).contains(
                #[trigger] s[i],
            ),
{
    let f = |e: RegistryEntry| e.session_id != sid;
    let t = without_session(s, sid);
    assert(!has_session(t, sid)) by {
        if has_session(t, sid) {
            let k = choose|k: int| 0 <= k < t.len() && t[k].session_id == sid;
            s.lemma_filter_pred(f, k);
        }
    }
    assert forall|k: int| 0 <= k < t.len() implies s.contains(#[trigger] t[k]) by {
        assert(t.contains(t[k]));
        s.lemma_filter_contains_rev(f, t[k]);
    }
    assert forall|i: int| 0 <= i < s.len() && s[i].session_id != sid implies t.contains(
        #[trigger] s[i],
    ) by {
        s.lemma_filter_contains(f, i);
    }
}

/// Hole punching reaches the registered node: where entry `k` is the only one
/// carrying `uuid`, it is the first one, so a connect request for `uuid` asks
/// the session of entry `k`, and only it, to punch toward the requester, and
/// the requester's answer after the acknowledgement describes entry `k`.
pub proof fn lemma_hole_punch_reaches_target(s: Seq<RegistryEntry>, uuid: u128, k: int)
    requires
        0 <= k < s.len(),
        s[k].identity.uuid == uuid,
        forall|j: int| 0 <= j < s.len() && #[trigger] s[j].identity.uuid == uuid ==> j == k,
    ensures
        has_uuid(s, uuid),
        first_with_uuid(s, uuid, k),
        forall|i: int| #[trigger] first_with_uuid(s, uuid, i) ==> i == k,
        forall|target_session: u64, target: NodeAddrAndCert|
            #[trigger] punches_first_entry(s, uuid, target_session, target) ==> target_session
                == s[k].session_id && describes(target, s[k]),
{
}

} // verus!
