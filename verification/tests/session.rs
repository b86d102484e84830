use tunnelit_agent::local_proxy::{data_message, LocalConnections, RouteOutcome};
use tunnelit_agent::protocol::{AgentMessage, RelayMessage, TunnelConfig};
use tunnelit_agent::tunnel_client::{Action, Delivery, Incoming, Transport, TunnelClient};

fn open(conns: &mut LocalConnections, conn_id: u128) -> tokio::sync::mpsc::UnboundedReceiver<Vec<u8>> {
    let (tx, rx) = tokio::sync::mpsc::unbounded_channel();
    conns.register(conn_id, tx);
    rx
}


fn client(protocol: &str, preferred: Option<u16>, subdomain: Option<&str>) -> TunnelClient {
    TunnelClient::new(
        url::Url::parse("ws://127.0.0.1:9090/ws").unwrap(),
        25565,
        protocol.to_string(),
        preferred,
        subdomain.map(|s| s.to_string()),
    )
}

#[test]
fn first_message_asks_for_the_tunnel() {
    let c = client("tcp", Some(25565), None);
    assert_eq!(
        c.create_tunnel_message(),
        AgentMessage::CreateTunnel { local_port: 25565, protocol: "tcp".to_string(), preferred_port: Some(25565) }
    );
    assert_eq!(c.local_port(), 25565);
    assert_eq!(c.relay_url().as_str(), "ws://127.0.0.1:9090/ws");
}

#[test]
fn tunnel_created_requests_the_subdomain() {
    let c = client("tcp", None, Some("b543kjb"));
    let mut conns = LocalConnections::new();
    let r = c.step(&mut conns, Incoming::Message(RelayMessage::TunnelCreated { tunnel_id: 5, public_port: 40000 }));
    assert!(r.keep_running);
    assert_eq!(
        r.actions,
        vec![Action::Send(AgentMessage::RequestSubdomain { tunnel_id: 5, desired_name: "b543kjb".to_string() })]
    );
    assert!(matches!(r.delivery, Delivery::NoData));
}

#[test]
fn tunnel_created_without_subdomain_does_nothing() {
    let c = client("tcp", None, None);
    let mut conns = LocalConnections::new();
    let r = c.step(&mut conns, Incoming::Message(RelayMessage::TunnelCreated { tunnel_id: 5, public_port: 40000 }));
    assert!(r.keep_running);
    assert!(r.actions.is_empty());
}

#[test]
fn new_connection_opens_local_tcp_or_udp() {
    let mut conns = LocalConnections::new();
    let r = client("tcp", None, None).step(&mut conns, Incoming::Message(RelayMessage::NewConnection { tunnel_id: 1, conn_id: 9 }));
    assert_eq!(r.actions, vec![Action::OpenLocal { transport: Transport::Tcp, conn_id: 9, local_port: 25565 }]);
    let r = client("udp", None, None).step(&mut conns, Incoming::Message(RelayMessage::NewConnection { tunnel_id: 1, conn_id: 10 }));
    assert_eq!(r.actions, vec![Action::OpenLocal { transport: Transport::Udp, conn_id: 10, local_port: 25565 }]);
    let r = client("sctp", None, None).step(&mut conns, Incoming::Message(RelayMessage::NewConnection { tunnel_id: 1, conn_id: 11 }));
    assert!(r.actions.is_empty());
    assert!(r.keep_running);
    assert_eq!(conns.len(), 0);
}

#[test]
fn data_is_decoded_and_routed() {
    let c = client("tcp", None, None);
    let mut conns = LocalConnections::new();
    let mut rx = open(&mut conns, 9);
    let r = c.step(&mut conns, Incoming::Message(RelayMessage::Data { conn_id: 9, payload: "aGVsbG8=".to_string() }));
    assert!(matches!(r.delivery, Delivery::Routed(RouteOutcome::Sent(ref rc)) if rc.accepted()));
    assert_eq!(rx.try_recv().unwrap(), b"hello".to_vec());
    assert!(r.actions.is_empty());
    assert!(r.keep_running);
}

#[test]
fn chunk_read_locally_comes_back_through_a_relay_data_frame() {
    let c = client("udp", None, None);
    let mut conns = LocalConnections::new();
    let mut rx = open(&mut conns, 12);
    let chunk = vec![0u8, 255, 10, 13, 42, 7];
    let payload = match data_message(12, &chunk) {
        AgentMessage::Data { payload, .. } => payload,
        other => panic!("unexpected {:?}", other),
    };
    let r = c.step(&mut conns, Incoming::Message(RelayMessage::Data { conn_id: 12, payload }));
    assert!(matches!(r.delivery, Delivery::Routed(RouteOutcome::Sent(ref rc)) if rc.accepted()));
    assert_eq!(rx.try_recv().unwrap(), chunk);
}

#[test]
fn bad_payload_is_reported() {
    let c = client("tcp", None, None);
    let mut conns = LocalConnections::new();
    let _rx = open(&mut conns, 9);
    let r = c.step(&mut conns, Incoming::Message(RelayMessage::Data { conn_id: 9, payload: "%%%".to_string() }));
    assert!(matches!(r.delivery, Delivery::Undecodable(_)));
    assert!(r.keep_running);
    assert!(conns.contains(9));
}

#[test]
fn data_for_unknown_connection() {
    let c = client("tcp", None, None);
    let mut conns = LocalConnections::new();
    let r = c.step(&mut conns, Incoming::Message(RelayMessage::Data { conn_id: 3, payload: "AQI=".to_string() }));
    assert!(matches!(r.delivery, Delivery::Routed(RouteOutcome::UnknownConnection)));
}

#[test]
fn data_for_finished_connection_comes_back() {
    let c = client("tcp", None, None);
    let mut conns = LocalConnections::new();
    let rx = open(&mut conns, 3);
    drop(rx);
    let r = c.step(&mut conns, Incoming::Message(RelayMessage::Data { conn_id: 3, payload: "AQI=".to_string() }));
    match r.delivery {
        Delivery::Routed(RouteOutcome::Sent(receipt)) => assert_eq!(receipt.into_returned(), Some(vec![1, 2])),
        _ => panic!("expected the bytes back"),
    }
}

#[test]
fn relay_close_removes_the_connection_and_later_data_is_unknown() {
    let c = client("tcp", None, None);
    let mut conns = LocalConnections::new();
    let _rx = open(&mut conns, 9);
    let _other = open(&mut conns, 8);
    let r = c.step(&mut conns, Incoming::Message(RelayMessage::CloseConnection { conn_id: 9 }));
    assert!(r.keep_running);
    assert!(!conns.contains(9));
    assert!(conns.contains(8));
    let r = c.step(&mut conns, Incoming::Message(RelayMessage::Data { conn_id: 9, payload: "AQI=".to_string() }));
    assert!(matches!(r.delivery, Delivery::Routed(RouteOutcome::UnknownConnection)));
}

#[test]
fn session_ends_on_close_or_failure_only() {
    let c = client("tcp", None, None);
    let mut conns = LocalConnections::new();
    assert!(!c.step(&mut conns, Incoming::Closed).keep_running);
    assert!(!c.step(&mut conns, Incoming::Failed).keep_running);
    assert!(c.step(&mut conns, Incoming::Unreadable).keep_running);
    assert!(c.step(&mut conns, Incoming::Ignored).keep_running);
    let r = c.step(&mut conns, Incoming::Message(RelayMessage::Error { message: "no".to_string() }));
    assert!(r.keep_running && r.actions.is_empty());
}

#[test]
fn other_relay_messages_change_nothing() {
    let c = client("tcp", None, Some("x"));
    let mut conns = LocalConnections::new();
    let _rx = open(&mut conns, 1);
    let tunnel = TunnelConfig {
        id: 1,
        agent_id: 2,
        name: "mc".to_string(),
        local_port: 25565,
        protocol: "tcp".to_string(),
        public_port: 30000,
        subdomain: None,
        enabled: true,
    };
    for m in [
        RelayMessage::Pong,
        RelayMessage::SubdomainAssigned { tunnel_id: 1, subdomain: "x".to_string() },
        RelayMessage::SyncTunnels { tunnels: vec![tunnel.clone()] },
        RelayMessage::StartTunnel { tunnel },
        RelayMessage::StopTunnel { tunnel_id: 1 },
        RelayMessage::AuthSuccess { agent_id: 1, name: "n".to_string(), token: "t".to_string() },
        RelayMessage::ClaimReady { code: "c".to_string(), claim_url: "u".to_string() },
    ] {
        let r = c.step(&mut conns, Incoming::Message(m));
        assert!(r.keep_running && r.actions.is_empty());
        assert!(matches!(r.delivery, Delivery::NoData));
        assert_eq!(conns.len(), 1);
    }
}

#[test]
fn ignorable_frames_inserted_change_nothing() {
    let frames = vec![
        Incoming::Message(RelayMessage::TunnelCreated { tunnel_id: 1, public_port: 2 }),
        Incoming::Message(RelayMessage::NewConnection { tunnel_id: 1, conn_id: 7 }),
        Incoming::Message(RelayMessage::Data { conn_id: 7, payload: "AQI=".to_string() }),
        Incoming::Message(RelayMessage::CloseConnection { conn_id: 7 }),
        Incoming::Closed,
    ];
    let extras = [
        Incoming::Ignored,
        Incoming::Unreadable,
        Incoming::Message(RelayMessage::Pong),
        Incoming::Message(RelayMessage::SubdomainAssigned { tunnel_id: 1, subdomain: "s".to_string() }),
        Incoming::Message(RelayMessage::Error { message: "e".to_string() }),
    ];
    let run = |frames: &[Incoming]| {
        let c = client("tcp", None, Some("sub"));
        let mut conns = LocalConnections::new();
        let mut rx = open(&mut conns, 7);
        let mut actions = Vec::new();
        let mut running = true;
        for f in frames {
            if !running {
                break;
            }
            let r = c.step(&mut conns, f.clone());
            actions.extend(r.actions);
            running = r.keep_running;
        }
        let mut received = Vec::new();
        while let Ok(bytes) = rx.try_recv() {
            received.push(bytes);
        }
        (actions, received, conns.len(), running)
    };
    let base = run(&frames);
    for at in 0..=frames.len() {
        for extra in extras.iter() {
            let mut longer = frames.clone();
            longer.insert(at, extra.clone());
            assert_eq!(run(&longer), base, "extra {:?} at {}", extra, at);
        }
    }
}
