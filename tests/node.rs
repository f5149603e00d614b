use node_network::address::{IpAddress, SocketAddress};
use node_network::cert::{
    dns_name_from_extensions, dns_name_from_names, plan_dial, x509_dns_name_from_cert_der,
    x509_dns_name_from_der, CertificateError,
};
use node_network::identity::{Credential, NewNodeInfo, NodeInfo};
use node_network::lock::ArcMutex;
use node_network::protocol::{NodeAddrAndCert, NodeError};
use node_network::session::{next_session_state, CloseReason, PeerSession, SessionEvent, SessionState};
use node_network::status::{Log, Message, NodeBrowserBar, NodeStatus, RootLinkEvent, StateBar};
use node_network::session::RootNodeState;

#[test]
fn new_identity_is_a_version_4_uuid() {
    let i = NodeInfo::new("n".to_string(), NewNodeInfo { description: "d".to_string() });
    assert_eq!((i.uuid >> 76) & 0xf, 4);
    assert_eq!((i.uuid >> 62) & 0x3, 2);
    assert_eq!(i.name, "n");
    assert_eq!(i.description, "d");
    let s = i.uuid_string();
    assert_eq!(s.len(), 36);
    assert_eq!(s.as_bytes()[14], b'4');
}

#[test]
fn uuid_text_is_hyphenated_hex() {
    let i = NodeInfo { uuid: 0x0123_4567_89ab_cdef_0011_2233_4455_6677, name: String::new(), description: String::new() };
    assert_eq!(i.uuid_string(), "01234567-89ab-cdef-0011-223344556677");
}

#[test]
fn set_name_keeps_uuid() {
    let mut i = NodeInfo { uuid: 9, name: "a".to_string(), description: "x".to_string() };
    i.set_name("b".to_string());
    i.set_description("y".to_string());
    assert_eq!((i.uuid, i.name.as_str(), i.description.as_str()), (9, "b", "y"));
}

#[test]
fn generated_certificate_names_a_uuid() {
    let c = Credential::generate().ok().unwrap();
    assert!(!c.private_key_der.is_empty());
    let name = x509_dns_name_from_der(&c.certificate_der).ok().unwrap();
    assert_eq!(name.len(), 36);
    assert_eq!(name.as_bytes()[14], b'4');
    assert_eq!(name.as_bytes()[8], b'-');
    let again = x509_dns_name_from_cert_der(c.certificate_der.clone()).ok().unwrap();
    assert_eq!(again, name);
}

#[test]
fn garbage_is_not_a_certificate() {
    assert_eq!(x509_dns_name_from_der(&[1, 2, 3]), Err(CertificateError::Malformed));
    assert_eq!(x509_dns_name_from_der(&[]), Err(CertificateError::Malformed));
}

#[test]
fn first_dns_name_wins() {
    let es = vec![
        None,
        Some(vec![None]),
        Some(vec![None, Some("one".to_string()), Some("two".to_string())]),
        Some(vec![Some("three".to_string())]),
    ];
    assert_eq!(dns_name_from_extensions(&es), Some("one".to_string()));
    assert_eq!(dns_name_from_extensions(&vec![None, Some(vec![None])]), None);
    assert_eq!(dns_name_from_names(&vec![None, Some("x".to_string())]), Some("x".to_string()));
    assert_eq!(dns_name_from_names(&vec![]), None);
}

#[test]
fn dial_is_pinned_to_the_certificate() {
    let c = Credential::generate().ok().unwrap();
    let at = SocketAddress { ip: IpAddress::V6(1), port: 7 };
    let t = NodeAddrAndCert { name: "B".to_string(), addr: at, cert: c.certificate_der.clone() };
    let plan = plan_dial(&t).ok().unwrap();
    assert_eq!(plan.addr, at);
    assert_eq!(plan.roots.len(), 1);
    let mut expected = rustls::RootCertStore::empty();
    expected.add(rustls::pki_types::CertificateDer::from(c.certificate_der.clone())).unwrap();
    assert_eq!(plan.roots.roots, expected.roots);
    assert_eq!(plan.server_name, x509_dns_name_from_der(&c.certificate_der).ok().unwrap());
    let bad = NodeAddrAndCert { name: "B".to_string(), addr: at, cert: vec![0x30, 0x00] };
    assert!(matches!(plan_dial(&bad), Err(NodeError::HandshakeFailed)));
}

#[test]
fn session_state_machine() {
    let s = next_session_state(SessionState::Dialing, SessionEvent::HandshakeCompleted);
    assert_eq!(s, SessionState::Established);
    let s2 = next_session_state(s, SessionEvent::Closed(CloseReason::Remote(3)));
    assert_eq!(s2, SessionState::Closed(CloseReason::Remote(3)));
    assert_eq!(next_session_state(s2, SessionEvent::HandshakeCompleted), s2);
    assert_eq!(
        next_session_state(SessionState::Accepting, SessionEvent::HandshakeFailed),
        SessionState::Closed(CloseReason::HandshakeFailed)
    );
    assert_eq!(next_session_state(SessionState::Established, SessionEvent::HandshakeFailed), SessionState::Established);
}

#[test]
fn state_bar_takes_updates() {
    let mut b = StateBar::new();
    assert_eq!(b.root_node_state, RootNodeState::Disconnect);
    assert_eq!(b.hub_node_delay, -1);
    b.apply_message(Message::RootNodeState(RootNodeState::Connected));
    b.apply_message(Message::Delay(42));
    assert_eq!(b.root_node_state, RootNodeState::Connected);
    assert_eq!(b.hub_node_delay, 42);
    b.set_hub_node_delay(-1);
    assert_eq!(b.hub_node_delay, -1);
    b.apply_message(Message::Delay(150));
    assert_eq!(b.hub_node_delay, 150);
    b.apply_message(Message::Log(Some(Log::Error("lost".to_string()))));
    assert!(matches!(&b.log, Some(Log::Error(t)) if t == "lost"));
    b.set_log(None);
    assert!(b.log.is_none());
    b.set_root_node_state(RootNodeState::Connecting);
    assert_eq!(b.root_node_state, RootNodeState::Connecting);
}

#[test]
fn browser_selection() {
    let mut b = NodeBrowserBar::new();
    b.select(Some(0));
    assert_eq!(b.selected_uuid(), None);
    b.set_node_info_list(vec![
        NodeInfo { uuid: 5, name: "a".to_string(), description: String::new() },
        NodeInfo { uuid: 6, name: "b".to_string(), description: String::new() },
    ]);
    b.select(Some(1));
    assert_eq!(b.selected_uuid(), Some(6));
    b.select(Some(2));
    assert_eq!(b.selected_uuid(), None);
    b.select(Some(0));
    b.set_node_info_list(vec![]);
    assert_eq!(b.row_selected_index, None);
}

#[test]
fn lock_publishes_updates() {
    let m = ArcMutex::new(1u32);
    let other = m.share();
    let mut g = m.lock();
    assert_eq!(*g.get(), 1);
    g.set(5);
    g.unlock();
    let g = other.lock();
    assert_eq!(*g.get(), 5);
    g.unlock();
}

#[test]
fn root_link_events_drive_the_status() {
    let mut s = NodeStatus::new();
    s.begin_connect();
    assert_eq!(s.state_bar.root_node_state, RootNodeState::Connecting);
    assert!(!s.connect_root_node_bar.is_enable);
    s.begin_connect();
    assert_eq!(s.state_bar.root_node_state, RootNodeState::Connecting);
    assert!(!s.connect_root_node_bar.is_enable);
    s.on_root_link_event(RootLinkEvent::ConnectFailed);
    assert_eq!(s.state_bar.root_node_state, RootNodeState::Disconnect);
    assert!(s.connect_root_node_bar.is_enable);
    assert!(matches!(s.state_bar.log, Some(Log::Error(_))));
    s.begin_connect();
    s.on_root_link_event(RootLinkEvent::Connected);
    assert_eq!(s.state_bar.root_node_state, RootNodeState::Connected);
    s.node_browser_bar.set_node_info_list(vec![NodeInfo { uuid: 1, name: "a".to_string(), description: String::new() }]);
    s.on_root_link_event(RootLinkEvent::Disconnected);
    assert_eq!(s.state_bar.root_node_state, RootNodeState::Disconnect);
    assert!(s.node_browser_bar.node_info_list.is_empty());
    assert!(s.connect_root_node_bar.is_enable);
    assert!(matches!(s.state_bar.log, Some(Log::Info(_))));
}

#[test]
fn peer_session_learns_identity_only_when_established() {
    let mut s = PeerSession::dialing();
    s.learn_identity(NodeInfo { uuid: 1, name: "early".to_string(), description: String::new() });
    assert!(s.remote_identity.is_none());
    s.on_event(SessionEvent::HandshakeCompleted);
    s.learn_identity(NodeInfo { uuid: 2, name: "b".to_string(), description: String::new() });
    assert_eq!(s.remote_identity.as_ref().unwrap().uuid, 2);
    s.on_event(SessionEvent::Closed(CloseReason::Lost));
    assert!(s.is_closed());
    s.on_event(SessionEvent::HandshakeCompleted);
    assert_eq!(s.state, SessionState::Closed(CloseReason::Lost));
    let a = PeerSession::accepting();
    assert_eq!(a.state, SessionState::Accepting);
    assert!(!a.is_closed());
}
