use echo_tool::tcp_server::{
    AcceptAction, AcceptEvent, ConnectionAction, ConnectionEnd, ConnectionEvent, ConnectionPhase,
    EchoConnection, TcpAcceptor,
};
use echo_tool::serving::{ServerEnd, MAX_CHUNK};
use echo_tool::udp_server::{UdpServer, UdpServerAction, UdpServerEvent, UdpServerPhase};

#[test]
fn udp_server_echoes_each_datagram() {
    let mut s = UdpServer::new();
    match s.step(UdpServerEvent::Received(b"abc".to_vec())) {
        UdpServerAction::EchoBack(d) => assert_eq!(d, b"abc".to_vec()),
        other => panic!("unexpected {:?}", other),
    }
    // no second receive before the echo is sent
    assert!(matches!(s.step(UdpServerEvent::Received(b"x".to_vec())), UdpServerAction::Ignore));
    assert!(matches!(s.step(UdpServerEvent::Sent), UdpServerAction::Receive));
    match s.step(UdpServerEvent::Received(b"defg".to_vec())) {
        UdpServerAction::EchoBack(d) => assert_eq!(d, b"defg".to_vec()),
        other => panic!("unexpected {:?}", other),
    }
    assert_eq!(s.datagrams, 2);
}

#[test]
fn udp_server_stops_on_send_error() {
    let mut s = UdpServer::new();
    s.step(UdpServerEvent::Received(b"abc".to_vec()));
    assert!(matches!(s.step(UdpServerEvent::SendFailed), UdpServerAction::Stop(ServerEnd::SendFailed)));
    assert_eq!(s.phase, UdpServerPhase::Stopped(ServerEnd::SendFailed));
    assert!(matches!(s.step(UdpServerEvent::Received(b"z".to_vec())), UdpServerAction::Ignore));
}

#[test]
fn udp_server_stops_on_cancel() {
    let mut s = UdpServer::new();
    assert!(matches!(s.step(UdpServerEvent::Cancelled), UdpServerAction::Stop(ServerEnd::Cancelled)));
    assert_eq!(s.phase, UdpServerPhase::Stopped(ServerEnd::Cancelled));
}

#[test]
fn udp_server_keeps_serving_after_receive_error() {
    let mut t = UdpServer::new();
    assert!(matches!(t.step(UdpServerEvent::ReceiveFailed), UdpServerAction::Receive));
    assert_eq!(t.phase, UdpServerPhase::Receiving);
    assert_eq!(t.datagrams, 0);
    match t.step(UdpServerEvent::Received(b"later".to_vec())) {
        UdpServerAction::EchoBack(d) => assert_eq!(d, b"later".to_vec()),
        other => panic!("unexpected {:?}", other),
    }
    assert_eq!(t.datagrams, 1);
}

#[test]
fn acceptor_spawns_until_cancelled() {
    let mut a = TcpAcceptor::new();
    assert_eq!(a.step(AcceptEvent::Accepted), AcceptAction::SpawnAndAccept);
    assert_eq!(a.step(AcceptEvent::Accepted), AcceptAction::SpawnAndAccept);
    assert_eq!(a.connections, 2);
    assert_eq!(a.step(AcceptEvent::Cancelled), AcceptAction::Stop(ServerEnd::Cancelled));
    assert_eq!(a.step(AcceptEvent::Accepted), AcceptAction::Ignore);
    assert_eq!(a.connections, 2);
    let mut b = TcpAcceptor::new();
    assert_eq!(b.step(AcceptEvent::AcceptFailed), AcceptAction::Stop(ServerEnd::AcceptFailed));
}

#[test]
fn connection_echoes_until_peer_closes() {
    let (mut c, first) = EchoConnection::new();
    assert!(matches!(first, ConnectionAction::Read { max: MAX_CHUNK }));
    assert_eq!(MAX_CHUNK, 65536);
    match c.step(ConnectionEvent::Read(b"hello".to_vec())) {
        ConnectionAction::WriteAll(d) => assert_eq!(d, b"hello".to_vec()),
        other => panic!("unexpected {:?}", other),
    }
    assert!(matches!(c.step(ConnectionEvent::Written), ConnectionAction::Read { .. }));
    assert!(matches!(
        c.step(ConnectionEvent::Read(Vec::new())),
        ConnectionAction::Close(ConnectionEnd::PeerClosed)
    ));
    assert_eq!(c.messages, 1);
    assert_eq!(c.phase, ConnectionPhase::Closed(ConnectionEnd::PeerClosed));
}

#[test]
fn connection_closes_on_errors() {
    let (mut c, _) = EchoConnection::new();
    assert!(matches!(c.step(ConnectionEvent::ReadFailed), ConnectionAction::Close(ConnectionEnd::ReadFailed)));
    let (mut d, _) = EchoConnection::new();
    d.step(ConnectionEvent::Read(b"x".to_vec()));
    assert!(matches!(d.step(ConnectionEvent::WriteFailed), ConnectionAction::Close(ConnectionEnd::WriteFailed)));
}

#[test]
fn two_connections_are_independent() {
    let (mut a, _) = EchoConnection::new();
    let (mut b, _) = EchoConnection::new();
    let mut out_a = Vec::new();
    let mut out_b = Vec::new();
    if let ConnectionAction::WriteAll(d) = a.step(ConnectionEvent::Read(b"AA".to_vec())) {
        out_a.extend(d);
    }
    if let ConnectionAction::WriteAll(d) = b.step(ConnectionEvent::Read(b"bb".to_vec())) {
        out_b.extend(d);
    }
    b.step(ConnectionEvent::Written);
    assert!(matches!(b.step(ConnectionEvent::Read(Vec::new())), ConnectionAction::Close(_)));
    a.step(ConnectionEvent::Written);
    if let ConnectionAction::WriteAll(d) = a.step(ConnectionEvent::Read(b"CC".to_vec())) {
        out_a.extend(d);
    }
    assert_eq!(out_a, b"AACC".to_vec());
    assert_eq!(out_b, b"bb".to_vec());
    assert_eq!(a.phase, ConnectionPhase::Writing);
    assert_eq!(a.messages, 2);
}
