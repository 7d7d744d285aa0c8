use mirai_matchmaking::address::Address;
use mirai_matchmaking::client::{
    Client, ServerConnection, Status, CONNECT_TIMEOUT_NANOS, PING_INTERVAL_NANOS,
};
use mirai_matchmaking::peer::{Peer, PeerStatus};
use mirai_matchmaking::wire::{ClientToClient, ClientToServer, PeerPacket, ServerToClient};

fn addr(last: u8) -> Address {
    Address::new(0xffff_7f00_0000 | last as u128, 44445)
}

fn server() -> Address {
    Address::new(0xffff_7f00_0001, 44444)
}

fn queued_client(peers: Vec<Address>) -> Client {
    let mut c = Client::new(server());
    assert_eq!(c.queue(0), Some(ClientToServer::Queue));
    c.on_server_message(&ServerToClient::Peers(peers));
    assert_eq!(c.status(), Status::Queued);
    c
}

#[test]
fn handshake_converges() {
    let a_addr = addr(1);
    let b_addr = addr(2);
    let mut a = queued_client(vec![b_addr]);
    let mut b = queued_client(vec![a_addr]);

    let mut b_for_a = a.peers()[0];
    let challenge = a.challenge(&mut b_for_a);
    assert_eq!(
        challenge,
        PeerPacket { to: b_addr, msg: ClientToClient::Challenge, reliable: true }
    );
    assert_eq!(b_for_a.status(), PeerStatus::OutgoingChallenge);
    assert_eq!(b.on_peer_message(a_addr, challenge.msg, 10), None);
    assert_eq!(b.incoming_challenges(), vec![a_addr]);

    let mut a_for_b = b.peers()[0];
    let accept = b.accept(&mut a_for_b).unwrap();
    assert_eq!(accept, PeerPacket { to: a_addr, msg: ClientToClient::Accept, reliable: true });

    let start = a.on_peer_message(b_addr, accept.msg, 20).unwrap();
    assert_eq!(start, PeerPacket { to: b_addr, msg: ClientToClient::Start(0), reliable: true });
    assert_eq!(a.status(), Status::MatchPending(b_addr));
    assert_eq!(a.check_match(), None);

    let start_back = b.on_peer_message(a_addr, start.msg, 30).unwrap();
    assert_eq!(
        start_back,
        PeerPacket { to: a_addr, msg: ClientToClient::Start(0), reliable: true }
    );
    assert_eq!(b.check_match(), Some(a_addr));

    assert_eq!(a.on_peer_message(b_addr, start_back.msg, 40), None);
    assert_eq!(a.check_match(), Some(b_addr));

    assert!(a.incoming_challenges().is_empty() && a.outgoing_challenges().is_empty());
    assert!(b.incoming_challenges().is_empty() && b.outgoing_challenges().is_empty());
}

#[test]
fn duplicates_after_confirmation_are_ignored() {
    let a_addr = addr(1);
    let b_addr = addr(2);
    let mut b = queued_client(vec![a_addr]);
    b.on_peer_message(a_addr, ClientToClient::Challenge, 0);
    assert!(b.on_peer_message(a_addr, ClientToClient::Start(0), 0).is_some());
    assert_eq!(b.check_match(), Some(a_addr));
    assert_eq!(b.on_peer_message(a_addr, ClientToClient::Start(0), 0), None);
    assert_eq!(b.on_peer_message(a_addr, ClientToClient::Accept, 0), None);
    assert_eq!(b.on_peer_message(b_addr, ClientToClient::Start(5), 0), None);
    assert_eq!(b.status(), Status::MatchConfirmed(a_addr));
}

#[test]
fn accept_from_unchallenged_peer_is_ignored() {
    let mut a = queued_client(vec![addr(2), addr(3)]);
    let mut p = a.peers()[0];
    a.challenge(&mut p);
    assert_eq!(a.on_peer_message(addr(3), ClientToClient::Accept, 0), None);
    assert_eq!(a.status(), Status::Queued);
}

#[test]
fn accept_while_not_queued_is_ignored() {
    let mut a = Client::new(server());
    let mut p = Peer::new(addr(2));
    a.challenge(&mut p);
    assert_eq!(a.on_peer_message(addr(2), ClientToClient::Accept, 0), None);
    assert_eq!(a.status(), Status::Idle);
    a.queue(0);
    assert_eq!(a.on_peer_message(addr(2), ClientToClient::Accept, 0), None);
    assert_eq!(a.status(), Status::QueuePending);
}

#[test]
fn accept_without_challenge_sends_nothing() {
    let c = queued_client(vec![addr(2)]);
    let mut p = c.peers()[0];
    let mut c = c;
    assert_eq!(c.accept(&mut p), None);
    c.on_peer_message(addr(2), ClientToClient::Challenge, 0);
    assert!(c.accept(&mut p).is_some());
}

#[test]
fn decline_removes_the_challenge_once() {
    let mut c = queued_client(vec![]);
    c.on_peer_message(addr(2), ClientToClient::Challenge, 0);
    c.on_peer_message(addr(2), ClientToClient::Challenge, 0);
    assert_eq!(c.incoming_challenges(), vec![addr(2)]);
    assert_eq!(
        c.decline(addr(2)),
        Some(PeerPacket { to: addr(2), msg: ClientToClient::Decline, reliable: true })
    );
    assert_eq!(c.decline(addr(2)), None);
    assert!(c.incoming_challenges().is_empty());
}

#[test]
fn declined_pending_match_returns_to_queued() {
    let mut a = queued_client(vec![addr(2)]);
    let mut p = a.peers()[0];
    a.challenge(&mut p);
    a.on_peer_message(addr(2), ClientToClient::Accept, 0);
    assert_eq!(a.status(), Status::MatchPending(addr(2)));
    assert_eq!(a.on_peer_message(addr(2), ClientToClient::Decline, 0), None);
    assert_eq!(a.status(), Status::Queued);
    assert!(a.outgoing_challenges().is_empty());
}

#[test]
fn stalled_handshake_stays_pending() {
    let mut a = queued_client(vec![addr(2)]);
    let mut p = a.peers()[0];
    a.challenge(&mut p);
    a.on_peer_message(addr(2), ClientToClient::Accept, 0);
    for t in 0..10u128 {
        a.tick(t * PING_INTERVAL_NANOS * 2);
    }
    assert_eq!(a.status(), Status::MatchPending(addr(2)));
}

#[test]
fn queue_and_dequeue() {
    let mut c = Client::new(server());
    assert_eq!(c.dequeue(), None);
    assert_eq!(c.queue(1000), Some(ClientToServer::Queue));
    assert_eq!(c.status(), Status::QueuePending);
    assert_eq!(
        c.server_connection(),
        ServerConnection::Connecting(1000 + CONNECT_TIMEOUT_NANOS)
    );
    assert_eq!(c.queue(2000), None);
    assert_eq!(c.dequeue(), Some(ClientToServer::Dequeue));
    assert_eq!(c.status(), Status::Idle);
    assert_eq!(c.server_connection(), ServerConnection::Disconnected);
}

#[test]
fn connecting_deadline_saturates_and_expires() {
    let mut c = Client::new(server());
    c.queue(u128::MAX - 1);
    assert_eq!(c.server_connection(), ServerConnection::Connecting(u128::MAX));
    let mut c = Client::new(server());
    c.queue(0);
    c.tick(CONNECT_TIMEOUT_NANOS);
    assert_eq!(c.server_connection(), ServerConnection::Connecting(CONNECT_TIMEOUT_NANOS));
    c.tick(CONNECT_TIMEOUT_NANOS + 1);
    assert_eq!(c.server_connection(), ServerConnection::Disconnected);
}

#[test]
fn connect_and_timeout_of_the_server() {
    let mut c = Client::new(server());
    c.on_connect(addr(9));
    assert_eq!(c.server_connection(), ServerConnection::Disconnected);
    c.on_connect(server());
    assert_eq!(c.server_connection(), ServerConnection::Connected);
    c.on_timeout(addr(9));
    assert_eq!(c.server_connection(), ServerConnection::Connected);
    c.on_timeout(server());
    assert_eq!(c.server_connection(), ServerConnection::Disconnected);
}

#[test]
fn server_messages_update_the_peer_table() {
    let mut c = Client::new(server());
    c.on_server_message(&ServerToClient::Queued(addr(2)));
    assert_eq!(c.status(), Status::Idle);
    c.on_server_message(&ServerToClient::Peers(vec![addr(3), addr(2)]));
    let addrs: Vec<Address> = c.peers().iter().map(|p| p.addr()).collect();
    assert_eq!(addrs, vec![addr(2), addr(3)]);
    c.on_server_message(&ServerToClient::Dequeued(addr(2)));
    let addrs: Vec<Address> = c.peers().iter().map(|p| p.addr()).collect();
    assert_eq!(addrs, vec![addr(3)]);
    c.on_server_message(&ServerToClient::Alive);
    assert_eq!(c.peers().len(), 1);
}

#[test]
fn pings_and_latency() {
    let mut c = queued_client(vec![addr(2), addr(3)]);
    let probes = c.tick(1_000);
    assert_eq!(
        probes,
        vec![
            PeerPacket { to: addr(2), msg: ClientToClient::Ping(1_000), reliable: false },
            PeerPacket { to: addr(3), msg: ClientToClient::Ping(1_000), reliable: false },
        ]
    );
    assert!(c.tick(1_000 + PING_INTERVAL_NANOS).is_empty());
    assert_eq!(c.tick(1_001 + PING_INTERVAL_NANOS).len(), 2);

    assert_eq!(
        c.on_peer_message(addr(2), ClientToClient::Ping(77), 0),
        Some(PeerPacket { to: addr(2), msg: ClientToClient::PingResponse(77), reliable: false })
    );
    assert_eq!(c.on_peer_message(addr(2), ClientToClient::PingResponse(1_000), 1_400), None);
    assert_eq!(c.peers()[0].latency(), Some(200));
    c.on_peer_message(addr(2), ClientToClient::PingResponse(1_000), 1_800);
    assert_eq!(c.peers()[0].latency(), Some(100 + 200));
    c.on_peer_message(addr(2), ClientToClient::PingResponse(5_000), 1_800);
    assert_eq!(c.peers()[0].latency(), Some(300));
    assert_eq!(c.peers()[1].latency(), None);
}
