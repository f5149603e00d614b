use node_network::address::{IpAddress, SocketAddress};
use node_network::identity::NodeInfo;
use node_network::protocol::{
    complete_hole_punch, hole_punch_target, read_connect_result, read_node_list, root_request,
    DataPacket, NodeAddrAndCert, NodeError, RequestDataPacket, ResponseDataPacket, RootAction,
    RootNode,
};
use node_network::session::RootNodeState;

fn info(uuid: u128, name: &str) -> NodeInfo {
    NodeInfo { uuid, name: name.to_string(), description: "d".to_string() }
}

fn addr(last: u32, port: u16) -> SocketAddress {
    SocketAddress { ip: IpAddress::V4(0xc0a8_0000 | last), port }
}

fn register(root: &mut RootNode, session: u64, at: SocketAddress, i: NodeInfo, cert: Vec<u8>) {
    let a = root.handle(
        session,
        at,
        DataPacket::Request(RequestDataPacket::RegisterNode { info: i, cert }),
    );
    assert!(matches!(a, RootAction::Ignore));
}

#[test]
fn hole_punch_scenario() {
    let mut root = RootNode::new();
    let a_addr = addr(1, 40001);
    let b_addr = addr(2, 40002);
    register(&mut root, 1, a_addr, info(0xa, "A"), vec![0xa]);
    register(&mut root, 2, b_addr, info(0xb, "B"), vec![0xb, 0xb]);

    let action = root.handle(1, a_addr, DataPacket::Request(RequestDataPacket::ConnectNode { uuid: 0xb }));
    let (target_session, requester_addr, target) = match action {
        RootAction::PunchHole { target_session, requester_addr, target } => {
            (target_session, requester_addr, target)
        }
        _ => panic!("expected a hole-punching step"),
    };
    assert_eq!(target_session, 2);
    assert_eq!(requester_addr, a_addr);

    // B is asked to dial toward A, then acknowledges.
    let to_b = DataPacket::Request(RequestDataPacket::HolePunching { addr: requester_addr });
    let (toward, ack) = hole_punch_target(&to_b).ok().unwrap();
    assert_eq!(toward, a_addr);
    assert!(matches!(ack, DataPacket::Response(ResponseDataPacket::HolePunching)));

    let reply = complete_hole_punch(target, Some(ack));
    let got = read_connect_result(DataPacket::Response(reply)).ok().unwrap();
    assert_eq!(got.name, "B");
    assert_eq!(got.addr, b_addr);
    assert_eq!(got.cert, vec![0xb, 0xb]);
}

#[test]
fn unknown_target_scenario() {
    let mut root = RootNode::new();
    register(&mut root, 1, addr(1, 1), info(0xa, "A"), vec![]);
    register(&mut root, 2, addr(2, 2), info(0xb, "B"), vec![]);
    let action = root.handle(1, addr(1, 1), DataPacket::Request(RequestDataPacket::ConnectNode { uuid: 0x77 }));
    match action {
        RootAction::Reply(ResponseDataPacket::ConnectNode(None)) => {}
        _ => panic!("expected an immediate None"),
    }
    let r = read_connect_result(DataPacket::Response(ResponseDataPacket::ConnectNode(None)));
    assert!(matches!(r, Err(NodeError::TargetNotFound)));
}

#[test]
fn connection_loss_cleanup_scenario() {
    let mut root = RootNode::new();
    register(&mut root, 1, addr(1, 1), info(0xa, "A"), vec![]);
    register(&mut root, 2, addr(2, 2), info(0xb, "B"), vec![]);
    root.connection_lost(1);
    let action = root.handle(2, addr(2, 2), DataPacket::Request(RequestDataPacket::GetRegisteredNodeList));
    let list = match action {
        RootAction::Reply(r) => read_node_list(DataPacket::Response(r)).ok().unwrap(),
        _ => panic!("expected a list"),
    };
    assert_eq!(list.len(), 1);
    assert_eq!(list[0].uuid, 0xb);
    assert!(root.list().iter().all(|i| i.uuid != 0xa));
}

#[test]
fn unregister_request_removes_own_entry() {
    let mut root = RootNode::new();
    register(&mut root, 1, addr(1, 1), info(0xa, "A"), vec![]);
    let a = root.handle(1, addr(1, 1), DataPacket::Request(RequestDataPacket::UnregisterNode));
    assert!(matches!(a, RootAction::Ignore));
    assert!(root.list().is_empty());
    let a = root.handle(1, addr(1, 1), DataPacket::Request(RequestDataPacket::UnregisterNode));
    assert!(matches!(a, RootAction::Ignore));
}

#[test]
fn hole_punch_without_ack_replies_none() {
    let t = NodeAddrAndCert { name: "B".to_string(), addr: addr(2, 2), cert: vec![1] };
    assert!(matches!(complete_hole_punch(t, None), ResponseDataPacket::ConnectNode(None)));
    let t = NodeAddrAndCert { name: "B".to_string(), addr: addr(2, 2), cert: vec![1] };
    let wrong = DataPacket::Request(RequestDataPacket::UnregisterNode);
    assert!(matches!(complete_hole_punch(t, Some(wrong)), ResponseDataPacket::ConnectNode(None)));
}

#[test]
fn unexpected_packets_are_violations() {
    let p = DataPacket::Response(ResponseDataPacket::HolePunching);
    assert!(matches!(hole_punch_target(&p), Err(NodeError::ProtocolViolation)));
    let p = DataPacket::Response(ResponseDataPacket::RegisteredNodeList(vec![]));
    assert!(matches!(read_connect_result(p), Err(NodeError::ProtocolViolation)));
    let p = DataPacket::Response(ResponseDataPacket::ConnectNode(None));
    assert!(matches!(read_node_list(p), Err(NodeError::ProtocolViolation)));
}

#[test]
fn root_ignores_responses_and_hole_punch_requests() {
    let mut root = RootNode::new();
    register(&mut root, 1, addr(1, 1), info(0xa, "A"), vec![]);
    let a = root.handle(1, addr(1, 1), DataPacket::Response(ResponseDataPacket::HolePunching));
    assert!(matches!(a, RootAction::Ignore));
    let a = root.handle(
        1,
        addr(1, 1),
        DataPacket::Request(RequestDataPacket::HolePunching { addr: addr(3, 3) }),
    );
    assert!(matches!(a, RootAction::Ignore));
    assert_eq!(root.list().len(), 1);
}

#[test]
fn requests_need_the_root_connection() {
    let r = root_request(RootNodeState::Disconnect, RequestDataPacket::GetRegisteredNodeList);
    assert!(matches!(r, Err(NodeError::NotRegistered)));
    let r = root_request(RootNodeState::Connecting, RequestDataPacket::UnregisterNode);
    assert!(matches!(r, Err(NodeError::NotRegistered)));
    let r = root_request(RootNodeState::Connected, RequestDataPacket::ConnectNode { uuid: 3 });
    assert!(matches!(r, Ok(DataPacket::Request(RequestDataPacket::ConnectNode { uuid: 3 }))));
}
