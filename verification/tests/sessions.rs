use mosh_relay::addr::PeerAddr;
use mosh_relay::client::{subsystem_exit_status, Client, ClientAction, SubsystemWait};
use mosh_relay::message::Message;
use mosh_relay::protocol::{decrypt, encrypt};
use mosh_relay::replay::NonceSet;
use mosh_relay::server::{BootstrapOutcome, Server, ServerAction};

fn shared_key() -> Vec<u8> {
    (0u8..32).collect()
}

fn addr(port: u16) -> PeerAddr {
    PeerAddr { is_v6: false, ip: 0x7f000001, port, flowinfo: 0, scope_id: 0 }
}

/// Drives a responder with no active subsystem through one full successful
/// bootstrap for `sessid`, returning the encrypted reply.
fn bootstrap_ok(srv: &mut Server, key: &Vec<u8>, sessid: u64, from: PeerAddr) -> Vec<u8> {
    let pkt = encrypt(&Message::StartServer { sessid }, key).expect("encrypt");
    let act = srv.on_public_datagram(&pkt, from);
    let got_sessid = match act {
        ServerAction::Bootstrap { sessid } => sessid,
        other => panic!("expected a bootstrap request, got {}", describe_server_action(&other)),
    };
    assert_eq!(got_sessid, sessid);
    let output = b"MOSH CONNECT 60001 K\n".to_vec();
    let act = srv.on_bootstrap_result(BootstrapOutcome::Spawned { exit_ok: true, output });
    let (port, skey) = match act {
        ServerAction::ConnectSubsystem { port, key } => (port, key),
        other => panic!("expected a connect request, got {}", describe_server_action(&other)),
    };
    assert_eq!(port, 60001);
    assert_eq!(skey, "K");
    match srv.on_connect_result(sessid, skey, true) {
        ServerAction::Reply { data, to } => {
            assert_eq!(to, from);
            data
        },
        other => panic!("expected a reply, got {}", describe_server_action(&other)),
    }
}

fn describe_server_action(a: &ServerAction) -> &'static str {
    match a {
        ServerAction::Ignore => "ignore",
        ServerAction::Reply { .. } => "reply",
        ServerAction::ForwardToSubsystem { .. } => "forward to subsystem",
        ServerAction::ForwardToClient { .. } => "forward to client",
        ServerAction::Bootstrap { .. } => "bootstrap",
        ServerAction::ConnectSubsystem { .. } => "connect subsystem",
    }
}

#[test]
fn responder_answers_ping_with_pong() {
    let key = shared_key();
    let mut srv = Server::new(key.clone());
    let pkt = encrypt(&Message::Ping, &key).expect("encrypt");
    match srv.on_public_datagram(&pkt, addr(4000)) {
        ServerAction::Reply { data, to } => {
            assert_eq!(to, addr(4000));
            let mut cache = NonceSet::new();
            assert_eq!(decrypt(&data, &key, &mut cache).expect("decrypt"), Message::Pong);
        },
        other => panic!("expected a pong reply, got {}", describe_server_action(&other)),
    }
}

#[test]
fn idempotent_bootstrap_for_same_session_id() {
    let key = shared_key();
    let mut srv = Server::new(key.clone());
    let client_at = addr(5001);

    let reply1 = bootstrap_ok(&mut srv, &key, 42, client_at);
    let mut cache = NonceSet::new();
    let m1 = decrypt(&reply1, &key, &mut cache).expect("decrypt first reply");
    assert_eq!(m1, Message::ServerStarted { key: "K".to_string() });

    // The same bootstrap request again: the active subsystem answers with
    // the identical key and no second subsystem is spawned.
    let pkt = encrypt(&Message::StartServer { sessid: 42 }, &key).expect("encrypt");
    match srv.on_public_datagram(&pkt, client_at) {
        ServerAction::Reply { data, to } => {
            assert_eq!(to, client_at);
            let m2 = decrypt(&data, &key, &mut cache).expect("decrypt second reply");
            assert_eq!(m2, Message::ServerStarted { key: "K".to_string() });
        },
        other => panic!("expected the stored reply, got {}", describe_server_action(&other)),
    }
    assert!(srv.has_subsystem());
}

#[test]
fn different_session_id_triggers_fresh_bootstrap() {
    let key = shared_key();
    let mut srv = Server::new(key.clone());
    bootstrap_ok(&mut srv, &key, 42, addr(5001));
    let pkt = encrypt(&Message::StartServer { sessid: 43 }, &key).expect("encrypt");
    match srv.on_public_datagram(&pkt, addr(5001)) {
        ServerAction::Bootstrap { sessid } => assert_eq!(sessid, 43),
        other => panic!("expected a fresh bootstrap, got {}", describe_server_action(&other)),
    }
}

#[test]
fn failed_bootstrap_replies_failed_and_keeps_serving() {
    let key = shared_key();
    let mut srv = Server::new(key.clone());
    let client_at = addr(5002);
    let pkt = encrypt(&Message::StartServer { sessid: 7 }, &key).expect("encrypt");
    assert!(matches!(srv.on_public_datagram(&pkt, client_at), ServerAction::Bootstrap { .. }));
    let act = srv.on_bootstrap_result(
        BootstrapOutcome::Spawned { exit_ok: true, output: b"no announcement here\n".to_vec() },
    );
    match act {
        ServerAction::Reply { data, to } => {
            assert_eq!(to, client_at);
            let mut cache = NonceSet::new();
            match decrypt(&data, &key, &mut cache).expect("decrypt") {
                Message::Failed { msg } => {
                    assert_eq!(msg, "no usable MOSH CONNECT line in mosh-server output")
                },
                other => panic!("expected a failure reply, got {:?}", other),
            }
        },
        other => panic!("expected a failure reply, got {}", describe_server_action(&other)),
    }
    assert!(!srv.has_subsystem());
    // The responder survives and a later attempt can succeed.
    bootstrap_ok(&mut srv, &key, 8, client_at);
    assert!(srv.has_subsystem());
}

#[test]
fn resend_bound_is_fifty_resends_then_exit_two() {
    let key = shared_key();
    let mut cl = Client::new(addr(6000), key, false).expect("client");
    // The initial request is the first of the 51.
    let mut sent = 1usize;
    assert!(cl.initial_request().is_ok());
    loop {
        match cl.on_timeout().expect("timeout step") {
            ClientAction::SendPublic { .. } => sent += 1,
            ClientAction::Exit { status } => {
                assert_eq!(status, 2);
                break;
            },
            _ => panic!("unexpected action on timeout"),
        }
    }
    assert_eq!(sent, 51);
}

#[test]
fn address_pinning_discards_other_sources() {
    let key = shared_key();
    let dest = addr(6000);
    let mut cl = Client::new(dest, key.clone(), false).expect("client");
    // Establish the subsystem through a ServerStarted reply.
    let reply = encrypt(&Message::ServerStarted { key: "K".to_string() }, &key).expect("encrypt");
    match cl.on_public_datagram(&reply, dest) {
        ClientAction::SpawnSubsystem { key: k } => assert_eq!(k, "K"),
        _ => panic!("expected a spawn request"),
    }
    assert!(matches!(cl.on_subsystem_spawned(true), ClientAction::Ignore));

    let a = addr(7001);
    let b = addr(7002);
    let payload = vec![1u8, 2, 3];
    // First local sender is pinned and forwarded.
    match cl.on_relay_payload(&payload, a) {
        ClientAction::SendPublic { data } => assert_eq!(data, payload),
        _ => panic!("expected the first payload to be forwarded"),
    }
    // A different source is discarded.
    assert!(matches!(cl.on_relay_payload(&payload, b), ClientAction::Ignore));
    // The pinned source still goes through.
    match cl.on_relay_payload(&payload, a) {
        ClientAction::SendPublic { data } => assert_eq!(data, payload),
        _ => panic!("expected the pinned payload to be forwarded"),
    }
}

#[test]
fn ping_mode_exits_zero_on_pong() {
    let key = shared_key();
    let dest = addr(6000);
    let mut cl = Client::new(dest, key.clone(), true).expect("client");
    let pong = encrypt(&Message::Pong, &key).expect("encrypt");
    match cl.on_public_datagram(&pong, dest) {
        ClientAction::Exit { status } => assert_eq!(status, 0),
        _ => panic!("expected a successful exit"),
    }
}

#[test]
fn failed_reply_exits_one() {
    let key = shared_key();
    let dest = addr(6000);
    let mut cl = Client::new(dest, key.clone(), false).expect("client");
    let failed = encrypt(&Message::Failed { msg: "nope".to_string() }, &key).expect("encrypt");
    match cl.on_public_datagram(&failed, dest) {
        ClientAction::Exit { status } => assert_eq!(status, 1),
        _ => panic!("expected exit with status 1"),
    }
}

#[test]
fn traffic_from_strangers_is_ignored() {
    let key = shared_key();
    let dest = addr(6000);
    let mut cl = Client::new(dest, key.clone(), false).expect("client");
    let pong = encrypt(&Message::Pong, &key).expect("encrypt");
    assert!(matches!(cl.on_public_datagram(&pong, addr(6001)), ClientAction::Ignore));
}

#[test]
fn end_to_end_bootstrap_and_opaque_relay() {
    let key = shared_key();
    let initiator_public = addr(9100);
    let responder_public = addr(9200);
    let local_subsystem = addr(9300);

    let mut srv = Server::new(key.clone());
    let mut cl = Client::new(responder_public, key.clone(), false).expect("client");

    // Initiator asks for session 42; responder bootstraps and replies with
    // the session key.
    let reply = bootstrap_ok(&mut srv, &key, 42, initiator_public);
    match cl.on_public_datagram(&reply, responder_public) {
        ClientAction::SpawnSubsystem { key: k } => assert_eq!(k, "K"),
        _ => panic!("expected a spawn request"),
    }
    assert!(matches!(cl.on_subsystem_spawned(true), ClientAction::Ignore));

    // A 37-byte opaque payload travels from the initiator's relay socket to
    // the responder's relay socket unmodified.
    let payload: Vec<u8> = (0u8..37).collect();
    let on_wire = match cl.on_relay_payload(&payload, local_subsystem) {
        ClientAction::SendPublic { data } => data,
        _ => panic!("expected the payload to be forwarded"),
    };
    assert_eq!(on_wire, payload);
    match srv.on_public_datagram(&on_wire, initiator_public) {
        ServerAction::ForwardToSubsystem { data } => assert_eq!(data, payload),
        other => panic!("expected a subsystem forward, got {}", describe_server_action(&other)),
    }

    // And back: from the responder's relay socket to the initiator's.
    let back: Vec<u8> = (100u8..137).collect();
    let (wire_back, to) = match srv.on_subsystem_payload(&back) {
        ServerAction::ForwardToClient { data, to } => (data, to),
        other => panic!("expected a client forward, got {}", describe_server_action(&other)),
    };
    assert_eq!(to, initiator_public);
    assert_eq!(wire_back, back);
    match cl.on_public_datagram(&wire_back, responder_public) {
        ClientAction::ForwardToRelay { data, to } => {
            assert_eq!(data, back);
            assert_eq!(to, local_subsystem);
        },
        _ => panic!("expected a relay forward"),
    }
}

#[test]
fn subsystem_failure_clears_state_for_fresh_bootstrap() {
    let key = shared_key();
    let mut srv = Server::new(key.clone());
    bootstrap_ok(&mut srv, &key, 42, addr(5001));
    assert!(srv.has_subsystem());
    srv.on_subsystem_failure();
    assert!(!srv.has_subsystem());
    let pkt = encrypt(&Message::StartServer { sessid: 42 }, &key).expect("encrypt");
    assert!(matches!(srv.on_public_datagram(&pkt, addr(5001)), ServerAction::Bootstrap { .. }));
}

#[test]
fn real_handshake_request_reaches_responder() {
    let key = shared_key();
    let mut srv = Server::new(key.clone());
    let cl = Client::new(addr(9200), key, false).expect("client");
    let req = cl.initial_request().expect("request");
    // The initiator's own bootstrap request, whatever session id it drew,
    // authenticates at the responder and starts a bootstrap.
    assert!(matches!(
        srv.on_public_datagram(&req, addr(9100)),
        ServerAction::Bootstrap { .. }
    ));
}

#[test]
fn ping_mode_end_to_end() {
    let key = shared_key();
    let responder_public = addr(9200);
    let mut srv = Server::new(key.clone());
    let mut cl = Client::new(responder_public, key.clone(), true).expect("client");
    let req = cl.initial_request().expect("request");
    let reply = match srv.on_public_datagram(&req, addr(9100)) {
        ServerAction::Reply { data, to } => {
            assert_eq!(to, addr(9100));
            data
        },
        other => panic!("expected a pong reply, got {}", describe_server_action(&other)),
    };
    match cl.on_public_datagram(&reply, responder_public) {
        ClientAction::Exit { status } => assert_eq!(status, 0),
        _ => panic!("expected a successful exit"),
    }
}

#[test]
fn subsystem_exit_status_translation() {
    assert_eq!(subsystem_exit_status(&SubsystemWait::Exited { success: true }), 0);
    assert_eq!(subsystem_exit_status(&SubsystemWait::Exited { success: false }), 4);
    assert_eq!(subsystem_exit_status(&SubsystemWait::WaitFailed), 3);
}

#[test]
fn opaque_traffic_before_pinning_is_premature() {
    let key = shared_key();
    let dest = addr(6000);
    let mut cl = Client::new(dest, key.clone(), false).expect("client");
    let reply = encrypt(&Message::ServerStarted { key: "K".to_string() }, &key).expect("encrypt");
    assert!(matches!(cl.on_public_datagram(&reply, dest), ClientAction::SpawnSubsystem { .. }));
    assert!(matches!(cl.on_subsystem_spawned(true), ClientAction::Ignore));
    // Opaque traffic arrives before any local sender was observed: there is
    // nowhere to deliver it yet.
    let opaque = vec![1u8, 2, 3, 4];
    assert!(matches!(
        cl.on_public_datagram(&opaque, dest),
        ClientAction::PrematureTraffic
    ));
}
