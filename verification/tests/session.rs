//! The server and client session state machines driven through whole
//! scenarios: port allocation, authentication, offers, claims, the reaper
//! race, and the counters around a session.
use bore_tunnel::auth::Authenticator;
use bore_tunnel::client::{accept_message, client_auth_reply, client_hello_reply,
    client_loop_action, ClientAction};
use bore_tunnel::metrics::{per_second, Metrics};
use bore_tunnel::msg::{ClientMessage, Error, ServerMessage};
use bore_tunnel::server::{Server, SessionAction, DEFAULT_MIN_PORT};
use bore_tunnel::{CONTROL_PORT, MAX_FRAME_LEN, T_HB_MS, T_PARK_MS};

#[test]
fn named_constants() {
    assert_eq!(CONTROL_PORT, 7835);
    assert_eq!(MAX_FRAME_LEN, 65536);
    assert_eq!(T_HB_MS, 2000);
    assert_eq!(T_PARK_MS, 10_000);
    assert_eq!(DEFAULT_MIN_PORT, 1024);
}

#[test]
fn plain_tunnel_any_port() {
    // Server with min_port 1024 and no secret: no challenge is sent, a
    // Hello(0) opens a listener on any port, and the assigned port comes
    // back to the client.
    let mut server = Server::new(1024, None);
    assert!(server.challenge().is_none());
    let a = server.first_action(Some(&ClientMessage::Hello(0)));
    assert_eq!(a, SessionAction::OpenListener(0));
    // The kernel assigned a port; the server confirms it.
    let assigned: u16 = 30000;
    let reply = ServerMessage::Hello(assigned);
    assert!(matches!(client_hello_reply(false, &reply), Ok(30000)));

    // An inbound arrives on the public port: the server parks it and
    // offers it; the client answers on a fresh connection with Accept.
    let (id, offer) = server.offer(11).unwrap();
    match offer {
        ServerMessage::Connection(got) => assert_eq!(got, id),
        other => panic!("wrong offer: {:?}", other),
    }
    assert_eq!(client_loop_action(&ServerMessage::Connection(id)), ClientAction::OpenData(id));
    let accept = accept_message(id);
    assert_eq!(server.first_action(Some(&accept)), SessionAction::Forward(id));
    assert_eq!(server.claim(id), Ok(11));
}

#[test]
fn fixed_port_below_minimum_closes_silently() {
    let server = Server::new(5000, None);
    let a = server.first_action(Some(&ClientMessage::Hello(1000)));
    // The session closes without allocating a listener and without a
    // Hello reply.
    assert_eq!(a, SessionAction::CloseInvalidPort);
    // The boundary cases: the minimum itself and the any-port request pass.
    assert_eq!(
        server.first_action(Some(&ClientMessage::Hello(5000))),
        SessionAction::OpenListener(5000)
    );
    assert_eq!(
        server.first_action(Some(&ClientMessage::Hello(0))),
        SessionAction::OpenListener(0)
    );
    assert_eq!(
        server.first_action(Some(&ClientMessage::Hello(4999))),
        SessionAction::CloseInvalidPort
    );
}

#[test]
fn authenticated_tunnel() {
    let server = Server::new(1024, Some(b"s3cret"));
    let (nonce, challenge) = server.challenge().expect("a secret demands a challenge");
    assert!(matches!(challenge, ServerMessage::Challenge(n) if n == nonce));

    // A client that knows the secret answers and is admitted.
    let good = Authenticator::new(b"s3cret");
    let reply = client_auth_reply(Some(&good), &challenge).unwrap();
    assert!(matches!(server.check_auth(nonce, Some(&reply)), Ok(())));

    // A client with the wrong secret is turned away.
    let bad = Authenticator::new(b"wrong");
    let reply = client_auth_reply(Some(&bad), &challenge).unwrap();
    assert!(matches!(
        server.check_auth(nonce, Some(&reply)),
        Err(Error::AuthFailed)
    ));

    // A client with no secret at all must refuse the challenge.
    assert!(matches!(
        client_auth_reply(None, &challenge),
        Err(Error::AuthRequired)
    ));
}

#[test]
fn challenge_in_hello_position() {
    // A server that challenges a secretless client: the client fails with
    // AuthRequired when the challenge lands where Hello was expected.
    let challenge = ServerMessage::Challenge(42);
    assert!(matches!(
        client_hello_reply(false, &challenge),
        Err(Error::AuthRequired)
    ));
    // An authenticated client seeing a second challenge calls it a
    // protocol error.
    assert!(matches!(
        client_hello_reply(true, &challenge),
        Err(Error::UnexpectedMessage)
    ));
    assert!(matches!(
        client_hello_reply(false, &ServerMessage::Error(b"port already in use".to_vec())),
        Err(Error::Remote)
    ));
}

#[test]
fn receive_loop_actions() {
    assert_eq!(client_loop_action(&ServerMessage::Heartbeat), ClientAction::Ignore);
    assert_eq!(client_loop_action(&ServerMessage::Connection(5)), ClientAction::OpenData(5));
    assert_eq!(
        client_loop_action(&ServerMessage::Error(b"x".to_vec())),
        ClientAction::FailRemote
    );
    assert_eq!(client_loop_action(&ServerMessage::Hello(1)), ClientAction::FailUnexpected);
    assert_eq!(client_loop_action(&ServerMessage::Challenge(1)), ClientAction::FailUnexpected);
}

#[test]
fn unexpected_authenticate_and_eof_close() {
    let server = Server::new(1024, None);
    assert_eq!(
        server.first_action(Some(&ClientMessage::Authenticate(b"aa".to_vec()))),
        SessionAction::CloseUnexpectedAuthenticate
    );
    assert_eq!(server.first_action(None), SessionAction::CloseEndOfStream);
}

#[test]
fn parked_connection_reaped_once() {
    let mut server = Server::new(1024, None);
    let (id, _) = server.offer(7).unwrap();
    // The client never accepts; after the time to live the reaper removes
    // the entry and gets the handle to close.
    assert_eq!(server.reap(id), Some(7));
    // The id is gone: a late Accept finds nothing, and a second reap
    // finds nothing — the parked stream is delivered at most once.
    assert!(matches!(server.claim(id), Err(Error::MissingConnection)));
    assert_eq!(server.reap(id), None);
}

#[test]
fn accept_wins_race_then_reaper_finds_nothing() {
    let mut server = Server::new(1024, None);
    let (id, _) = server.offer(3).unwrap();
    assert_eq!(server.claim(id), Ok(3));
    assert_eq!(server.reap(id), None);
    assert!(matches!(server.claim(id), Err(Error::MissingConnection)));
}

#[test]
fn distinct_offers_stay_parked_independently() {
    let mut server = Server::new(1024, None);
    let (id1, _) = server.offer(1).unwrap();
    let (id2, _) = server.offer(2).unwrap();
    assert_ne!(id1, id2);
    assert_eq!(server.claim(id1), Ok(1));
    assert_eq!(server.claim(id2), Ok(2));
}

#[test]
fn connected_clients_restored_after_session() {
    // A session that ends — for instance because its heartbeats go
    // unanswered — undoes its increment, whatever the path out.
    let mut m = Metrics::new();
    m.connection_opened();
    m.client_connected();
    assert_eq!(m.connected_clients, 1);
    m.heartbeat_sent();
    m.heartbeat_sent();
    assert_eq!(m.heartbeats, 2);
    m.client_disconnected();
    m.connection_closed();
    assert_eq!(m.connected_clients, 0);
    assert_eq!(m.total_connections, 0);
}

#[test]
fn counters_saturate_and_rate_is_a_difference() {
    let mut m = Metrics::new();
    m.client_disconnected();
    assert_eq!(m.connected_clients, 0);
    m.bytes_in(u64::MAX);
    m.bytes_in(10);
    assert_eq!(m.incoming_bytes, u64::MAX);
    m.bytes_out(4096);
    assert_eq!(m.outgoing_bytes, 4096);
    assert_eq!(per_second(5000, 1500), 3500);
    assert_eq!(per_second(100, 100), 0);
    assert_eq!(per_second(100, 200), 0);
}

#[test]
fn counting_stream_wraps_and_releases() {
    let stream = bore_tunnel::byte_counter::CountingStream::new(vec![1u8, 2, 3]);
    assert_eq!(stream.into_inner(), vec![1u8, 2, 3]);
}

#[test]
fn registry_never_overwrites_a_parked_entry() {
    let mut reg = bore_tunnel::registry::Registry::new();
    assert!(reg.park(5, 1));
    assert!(!reg.contains(6));
    assert!(reg.contains(5));
    // A colliding identifier is refused and the first entry survives.
    assert!(!reg.park(5, 2));
    assert_eq!(reg.take(5), Some(1));
    assert_eq!(reg.take(5), None);
}
