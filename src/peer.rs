//! A remote candidate known to a client, with its latency estimate.
use vstd::prelude::*;
use crate::address::Address;

verus! {

/// A label the owner sets when it challenges a peer. It is advisory only: the
/// client's challenge sets are what the handshake goes by, and nothing keeps
/// this label in step with them.
#[derive(Clone, Copy, Debug, PartialEq, Eq, Hash, Structural)]
pub enum PeerStatus {
    NoChallenge,
    OutgoingChallenge,
    IncomingChallenge,
    Confirmed,
}

/// A potential opponent.
#[derive(Clone, Copy, Debug, PartialEq, Eq, Hash, Structural)]
pub struct Peer {
    pub addr: Address,
    /// Running estimate of the one-way latency, in nanoseconds; `None` until
    /// the first sample.
    pub latency: Option<u128>,
    /// Number of latency samples taken, saturating at `u32::MAX`.
    pub ping_count: u32,
    pub status: PeerStatus,
}

/// A peer just learned of.
pub open spec fn fresh_peer(addr: Address) -> Peer {
    Peer { addr, latency: None, ping_count: 0, status: PeerStatus::NoChallenge }
}

/// The estimate after a sample: the sample itself at first, then the mean of
/// the halves of the old estimate and the sample.
pub open spec fn next_latency(latency: Option<u128>, sample: u128) -> u128 {
    match latency {
        Some(l) => (l / 2 + sample / 2) as u128,
        None => sample,
    }
}

/// `p` after a latency sample.
pub open spec fn with_ping(p: Peer, sample: u128) -> Peer {
    Peer {
        latency: Some(next_latency(p.latency, sample)),
        ping_count: if p.ping_count < u32::MAX {
            (p.ping_count + 1) as u32
        } else {
            p.ping_count
        },
        ..p
    }
}

impl Peer {
    pub fn new(addr: Address) -> (r: Peer)
        ensures
            r == fresh_peer(addr),
    {
        Peer { addr, latency: None, ping_count: 0, status: PeerStatus::NoChallenge }
    }

    /// Folds a latency sample into the estimate.
    pub fn add_ping(&mut self, ping_latency: u128)
        ensures
            *final(self) == with_ping(*old(self), ping_latency),
    {
        if self.ping_count < u32::MAX {
            self.ping_count = self.ping_count + 1;
        }
        match self.latency {
            Some(latency) => self.latency = Some(latency / 2 + ping_latency / 2),
            None => self.latency = Some(ping_latency),
        }
    }

    pub fn addr(&self) -> (r: Address)
        ensures
            r == self.addr,
    {
        self.addr
    }

    pub fn latency(&self) -> (r: Option<u128>)
        ensures
            r == self.latency,
    {
        self.latency
    }

    pub fn status(&self) -> (r: PeerStatus)
        ensures
            r == self.status,
    {
        self.status
    }
}

/// For a peer with no estimate, samples `s1` then `s2` give the estimate `s1`,
/// then `s1 / 2 + s2 / 2`, and two samples counted.
pub proof fn lemma_latency_estimate(addr: Address, s1: u128, s2: u128)
    ensures
        with_ping(fresh_peer(addr), s1).latency == Some(s1),
        with_ping(with_ping(fresh_peer(addr), s1), s2).latency == Some((s1 / 2 + s2 / 2) as u128),
        with_ping(with_ping(fresh_peer(addr), s1), s2).ping_count == 2,
        with_ping(with_ping(fresh_peer(addr), s1), s2).addr == addr,
{
}

} // verus!
