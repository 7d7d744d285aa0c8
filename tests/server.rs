use mirai_matchmaking::address::Address;
use mirai_matchmaking::server::Matchmaker;
use mirai_matchmaking::wire::{ClientToServer, Envelope, ServerToClient};

fn addr(last: u8, port: u16) -> Address {
    Address::new(0xffff_7f00_0000 | last as u128, port)
}

fn sent_to(out: &[Envelope], to: Address) -> Vec<ServerToClient> {
    out.iter().filter(|e| e.to == to).map(|e| e.msg.clone()).collect()
}

#[test]
fn basic_queue_test() {
    let mut server = Matchmaker::new();
    let addr_1 = addr(1, 40001);
    let addr_2 = addr(1, 40002);
    let addr_3 = addr(1, 40003);

    let out = server.handle(addr_1, ClientToServer::Queue);
    assert_eq!(
        sent_to(&out, addr_1),
        vec![ServerToClient::Peers(vec![])],
        "first to queue gets an empty peer set"
    );

    let out = server.handle(addr_2, ClientToServer::Queue);
    assert_eq!(
        sent_to(&out, addr_2),
        vec![ServerToClient::Peers(vec![addr_1])],
        "second to queue gets the first peer in a set"
    );
    assert_eq!(
        sent_to(&out, addr_1),
        vec![ServerToClient::Queued(addr_2)],
        "first peer is notified of second peer"
    );

    let out = server.handle(addr_3, ClientToServer::Queue);
    assert_eq!(
        sent_to(&out, addr_3),
        vec![ServerToClient::Peers(vec![addr_1, addr_2])],
        "third to queue receivers both previous peers in a set"
    );
    assert_eq!(
        sent_to(&out, addr_1),
        vec![ServerToClient::Queued(addr_3)],
        "first peer is notified of third"
    );
    assert_eq!(
        sent_to(&out, addr_2),
        vec![ServerToClient::Queued(addr_3)],
        "second peer is notified of third"
    );
}

#[test]
fn basic_dequeue_test() {
    let mut server = Matchmaker::new();
    let addr_1 = addr(1, 40001);
    let addr_2 = addr(1, 40002);
    server.handle(addr_1, ClientToServer::Queue);
    server.handle(addr_1, ClientToServer::Dequeue);
    let out = server.handle(addr_2, ClientToServer::Queue);
    assert_eq!(
        sent_to(&out, addr_2),
        vec![ServerToClient::Peers(vec![])],
        "second to queue receives empty peer set"
    );
}

#[test]
fn timeout_test() {
    let mut server = Matchmaker::new();
    let addr_1 = addr(1, 40001);
    let addr_2 = addr(1, 40002);
    server.handle(addr_1, ClientToServer::Queue);
    server.timeout(addr_1);
    let out = server.handle(addr_2, ClientToServer::Queue);
    assert_eq!(
        sent_to(&out, addr_2),
        vec![ServerToClient::Peers(vec![])],
        "first client should have timed out of the queue"
    );
    assert!(out.iter().all(|e| !matches!(e.msg, ServerToClient::Dequeued(_))));
}

#[test]
fn admission_order_of_three() {
    let mut server = Matchmaker::new();
    let q1 = addr(1, 1);
    let q2 = addr(2, 1);
    let q3 = addr(3, 1);
    let out = server.queue(q1);
    assert_eq!(out.len(), 1);
    assert_eq!(out[0].to, q1);
    assert_eq!(out[0].msg, ServerToClient::Peers(vec![]));
    let out = server.queue(q2);
    assert_eq!(out.len(), 2);
    assert_eq!((out[0].to, out[0].msg.clone()), (q2, ServerToClient::Peers(vec![q1])));
    assert_eq!((out[1].to, out[1].msg.clone()), (q1, ServerToClient::Queued(q2)));
    let out = server.queue(q3);
    assert_eq!(out.len(), 3);
    assert_eq!((out[0].to, out[0].msg.clone()), (q3, ServerToClient::Peers(vec![q1, q2])));
    assert_eq!((out[1].to, out[1].msg.clone()), (q1, ServerToClient::Queued(q3)));
    assert_eq!((out[2].to, out[2].msg.clone()), (q2, ServerToClient::Queued(q3)));
    assert_eq!(server.members(), vec![q1, q2, q3]);
}

#[test]
fn dequeue_broadcasts_to_the_others() {
    let mut server = Matchmaker::new();
    let q1 = addr(1, 1);
    let q2 = addr(2, 1);
    let q3 = addr(3, 1);
    server.queue(q1);
    server.queue(q2);
    server.queue(q3);
    let out = server.dequeue(q2);
    assert_eq!(out.len(), 2);
    assert_eq!((out[0].to, out[0].msg.clone()), (q1, ServerToClient::Dequeued(q2)));
    assert_eq!((out[1].to, out[1].msg.clone()), (q3, ServerToClient::Dequeued(q2)));
    assert!(sent_to(&out, q2).is_empty());
    let q4 = addr(4, 1);
    let out = server.queue(q4);
    assert_eq!(out[0].msg, ServerToClient::Peers(vec![q1, q3]));
}

#[test]
fn dequeue_of_a_stranger_sends_nothing() {
    let mut server = Matchmaker::new();
    server.queue(addr(1, 1));
    let out = server.dequeue(addr(9, 9));
    assert!(out.is_empty());
    assert_eq!(server.members(), vec![addr(1, 1)]);
}

#[test]
fn requeue_resyncs_without_broadcast() {
    let mut server = Matchmaker::new();
    let q1 = addr(1, 1);
    let q2 = addr(2, 1);
    server.queue(q1);
    server.queue(q2);
    let out = server.queue(q1);
    assert_eq!(out.len(), 1);
    assert_eq!((out[0].to, out[0].msg.clone()), (q1, ServerToClient::Peers(vec![q2])));
    assert_eq!(server.members(), vec![q1, q2]);
}

#[test]
fn status_check_and_heartbeat() {
    let mut server = Matchmaker::new();
    let q1 = addr(1, 1);
    let out = server.handle(q1, ClientToServer::StatusCheck);
    assert_eq!(out.len(), 1);
    assert_eq!((out[0].to, out[0].msg.clone()), (q1, ServerToClient::Alive));
    let out = server.handle(q1, ClientToServer::Heartbeat);
    assert!(out.is_empty());
    assert!(server.members().is_empty());
}

#[test]
fn timeout_of_a_member_is_silent() {
    let mut server = Matchmaker::new();
    let q1 = addr(1, 1);
    let q2 = addr(2, 1);
    server.queue(q1);
    server.queue(q2);
    server.timeout(q1);
    assert_eq!(server.members(), vec![q2]);
    let out = server.queue(addr(3, 1));
    assert_eq!(out[0].msg, ServerToClient::Peers(vec![q2]));
}
