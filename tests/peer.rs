use mirai_matchmaking::address::Address;
use mirai_matchmaking::inputs::Input;
use mirai_matchmaking::peer::{Peer, PeerStatus};
use mirai_matchmaking::shared::armu;
use mirai_matchmaking::wire;

#[test]
fn latency_estimate_of_two_samples() {
    let mut p = Peer::new(Address::new(1, 2));
    assert_eq!(p.latency(), None);
    p.add_ping(100);
    assert_eq!(p.latency(), Some(100));
    p.add_ping(51);
    assert_eq!(p.latency(), Some(50 + 25));
    assert_eq!(p.ping_count, 2);
    assert_eq!(p.addr(), Address::new(1, 2));
    assert_eq!(p.status(), PeerStatus::NoChallenge);
}

#[test]
fn latency_estimate_at_the_largest_values() {
    let mut p = Peer::new(Address::new(1, 2));
    p.add_ping(u128::MAX);
    p.add_ping(u128::MAX);
    assert_eq!(p.latency(), Some(u128::MAX / 2 + u128::MAX / 2));
}

#[test]
fn ping_count_saturates() {
    let mut p = Peer::new(Address::new(1, 2));
    p.ping_count = u32::MAX;
    p.add_ping(4);
    assert_eq!(p.ping_count, u32::MAX);
    assert_eq!(p.latency(), Some(4));
}

#[test]
fn default_input_holds_nothing() {
    let i = Input::default();
    assert!(!i.left && !i.right && !i.attack);
    let c: wire::Input<Input> = wire::Input::Confirmed(i);
    assert_eq!(c, wire::Input::Confirmed(Input { left: false, right: false, attack: false }));
}

#[test]
fn shared_lock_holds_its_value() {
    let m = armu(7u32);
    assert_eq!(*m.lock().unwrap(), 7);
}
