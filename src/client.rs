//! The matchmaking client's state machine: its standing with the server, the
//! peers it knows, the challenges in flight, and the handshake that confirms a
//! match. Each operation returns the messages the caller is to send.
use vstd::prelude::*;
use crate::address::{Address, with, without, insert_address, remove_address, contains_address};
use crate::peer::{Peer, PeerStatus};
use crate::table::{
    unique_peers, put_peer, drop_peer, merge_peers, ping_peer, put_peer_in, drop_peer_in,
    merge_peers_in, ping_peer_in,
};
use crate::peer::fresh_peer;
use crate::wire::{ClientToServer, ServerToClient, ServerMsg, ClientToClient, PeerPacket};

verus! {

/// Interval between two rounds of latency probes, in nanoseconds.
pub const PING_INTERVAL_NANOS: u128 = 100_000_000;

/// How long a queue request may wait for the server to connect, in nanoseconds.
pub const CONNECT_TIMEOUT_NANOS: u128 = 5_000_000_000;

/// Where the client stands in matchmaking.
#[derive(Clone, Copy, Debug, PartialEq, Eq, Structural)]
pub enum Status {
    Idle,
    QueuePending,
    Queued,
    MatchPending(Address),
    MatchConfirmed(Address),
}

/// The transport connection to the server.
#[derive(Clone, Copy, Debug, PartialEq, Eq, Structural)]
pub enum ServerConnection {
    Connected,
    Disconnected,
    /// Waiting for the server, until the given time.
    Connecting(u128),
}

/// The client's state as a mathematical value.
pub struct ClientState {
    pub server_addr: Address,
    pub status: Status,
    pub connection: ServerConnection,
    pub peers: Seq<Peer>,
    pub incoming: Seq<Address>,
    pub outgoing: Seq<Address>,
    /// When the last round of probes went out.
    pub last_ping: Option<u128>,
}

pub open spec fn state_wf(s: ClientState) -> bool {
    &&& unique_peers(s.peers)
    &&& s.incoming.no_duplicates()
    &&& s.outgoing.no_duplicates()
}

pub open spec fn initial_state(server_addr: Address) -> ClientState {
    ClientState {
        server_addr,
        status: Status::Idle,
        connection: ServerConnection::Disconnected,
        peers: Seq::empty(),
        incoming: Seq::empty(),
        outgoing: Seq::empty(),
        last_ping: None,
    }
}

pub open spec fn connect_deadline(now: u128) -> u128 {
    if now <= u128::MAX - CONNECT_TIMEOUT_NANOS {
        (now + CONNECT_TIMEOUT_NANOS) as u128
    } else {
        u128::MAX
    }
}

/// The state after the owner asks to queue at time `now`.
pub open spec fn after_queue(s: ClientState, now: u128) -> ClientState {
    if s.status is Idle {
        ClientState {
            status: Status::QueuePending,
            connection: if s.connection is Disconnected {
                ServerConnection::Connecting(connect_deadline(now))
            } else {
                s.connection
            },
            ..s
        }
    } else {
        s
    }
}

pub open spec fn can_dequeue(s: ClientState) -> bool {
    s.status is QueuePending || s.status is Queued
}

/// The state after the owner asks to leave the queue.
pub open spec fn after_dequeue(s: ClientState) -> ClientState {
    if can_dequeue(s) {
        ClientState { status: Status::Idle, connection: ServerConnection::Disconnected, ..s }
    } else {
        s
    }
}

/// The state after the owner challenges `a`.
pub open spec fn after_challenge(s: ClientState, a: Address) -> ClientState {
    ClientState { outgoing: with(s.outgoing, a), ..s }
}

/// What the owner's acceptance of a challenge from `a` sends.
pub open spec fn accept_packet(s: ClientState, a: Address) -> Option<PeerPacket> {
    if s.incoming.contains(a) {
        Some(PeerPacket { to: a, msg: ClientToClient::Accept, reliable: true })
    } else {
        None
    }
}

/// The state after the owner declines a challenge from `a`.
pub open spec fn after_decline(s: ClientState, a: Address) -> ClientState {
    ClientState { incoming: without(s.incoming, a), ..s }
}

/// The state after a message from the server.
pub open spec fn after_server_msg(s: ClientState, m: ServerMsg) -> ClientState {
    match m {
        ServerMsg::Peers(l) => ClientState {
            peers: merge_peers(s.peers, l),
            status: if s.status is QueuePending {
                Status::Queued
            } else {
                s.status
            },
            ..s
        },
        ServerMsg::Queued(a) => ClientState { peers: put_peer(s.peers, fresh_peer(a)), ..s },
        ServerMsg::Dequeued(a) => ClientState { peers: drop_peer(s.peers, a), ..s },
        ServerMsg::Alive => s,
    }
}

/// `s` with a confirmed match against `a` and no challenge left open.
pub open spec fn confirmed(s: ClientState, a: Address) -> ClientState {
    ClientState {
        status: Status::MatchConfirmed(a),
        incoming: Seq::empty(),
        outgoing: Seq::empty(),
        ..s
    }
}

/// The state after message `m` from the client at `from`, received at `now`.
pub open spec fn after_peer_msg(s: ClientState, from: Address, m: ClientToClient, now: u128) -> ClientState {
    match m {
        ClientToClient::Challenge => ClientState { incoming: with(s.incoming, from), ..s },
        ClientToClient::Accept => if s.status is Queued && s.outgoing.contains(from) {
            ClientState { status: Status::MatchPending(from), ..s }
        } else {
            s
        },
        ClientToClient::Decline => ClientState {
            outgoing: without(s.outgoing, from),
            status: if s.status == Status::MatchPending(from) {
                Status::Queued
            } else {
                s.status
            },
            ..s
        },
        ClientToClient::Start(_) => if s.status is Queued || s.status == Status::MatchPending(from) {
            confirmed(s, from)
        } else {
            s
        },
        ClientToClient::Ping(_) => s,
        ClientToClient::PingResponse(t) => if t <= now {
            ClientState { peers: ping_peer(s.peers, from, ((now - t) / 2) as u128), ..s }
        } else {
            s
        },
    }
}

/// What message `m` from the client at `from` makes this client send back.
pub open spec fn peer_reply(s: ClientState, from: Address, m: ClientToClient) -> Option<PeerPacket> {
    match m {
        ClientToClient::Accept => if s.status is Queued && s.outgoing.contains(from) {
            Some(PeerPacket { to: from, msg: ClientToClient::Start(0), reliable: true })
        } else {
            None
        },
        ClientToClient::Start(_) => if s.status is Queued {
            Some(PeerPacket { to: from, msg: ClientToClient::Start(0), reliable: true })
        } else {
            None
        },
        ClientToClient::Ping(t) => Some(
            PeerPacket { to: from, msg: ClientToClient::PingResponse(t), reliable: false },
        ),
        _ => None,
    }
}

/// The state after the transport reports a connection to `a`.
pub open spec fn after_connect(s: ClientState, a: Address) -> ClientState {
    if a == s.server_addr {
        ClientState { connection: ServerConnection::Connected, ..s }
    } else {
        s
    }
}

/// The state after the transport reports that `a` timed out.
pub open spec fn after_timeout(s: ClientState, a: Address) -> ClientState {
    if a == s.server_addr {
        ClientState { connection: ServerConnection::Disconnected, ..s }
    } else {
        s
    }
}

/// Whether a round of probes is due at `now`.
pub open spec fn ping_due(last: Option<u128>, now: u128) -> bool {
    match last {
        None => true,
        Some(t) => t <= now && now - t > PING_INTERVAL_NANOS,
    }
}

/// The probes sent at `now` to each known peer, in table order.
pub open spec fn pings(peers: Seq<Peer>, now: u128) -> Seq<PeerPacket> {
    peers.map_values(|p: Peer| PeerPacket { to: p.addr, msg: ClientToClient::Ping(now), reliable: false })
}

/// The state after the periodic work at `now`: probes when due, and an
/// expired connection attempt given up.
pub open spec fn after_tick(s: ClientState, now: u128) -> ClientState {
    ClientState {
        last_ping: if ping_due(s.last_ping, now) {
            Some(now)
        } else {
            s.last_ping
        },
        connection: match s.connection {
            ServerConnection::Connecting(d) => if now > d {
                ServerConnection::Disconnected
            } else {
                s.connection
            },
            _ => s.connection,
        },
        ..s
    }
}

/// What the periodic work at `now` sends.
pub open spec fn tick_packets(s: ClientState, now: u128) -> Seq<PeerPacket> {
    if ping_due(s.last_ping, now) {
        pings(s.peers, now)
    } else {
        Seq::empty()
    }
}

/// A matchmaking client.
#[derive(Clone)]
pub struct Client {
    server_addr: Address,
    status: Status,
    server_connection: ServerConnection,
    peers: Vec<Peer>,
    incoming_challenges: Vec<Address>,
    outgoing_challenges: Vec<Address>,
    last_ping: Option<u128>,
}

impl View for Client {
    type V = ClientState;

    closed spec fn view(&self) -> ClientState {
        ClientState {
            server_addr: self.server_addr,
            status: self.status,
            connection: self.server_connection,
            peers: self.peers@,
            incoming: self.incoming_challenges@,
            outgoing: self.outgoing_challenges@,
            last_ping: self.last_ping,
        }
    }
}

impl Client {
    pub open spec fn wf(&self) -> bool {
        state_wf(self@)
    }

    /// A client of the server at `server_addr`, idle and knowing no peer.
    pub fn new(server_addr: Address) -> (r: Client)
        ensures
            r.wf(),
            r@ == initial_state(server_addr),
    {
        Client {
            server_addr,
            status: Status::Idle,
            server_connection: ServerConnection::Disconnected,
            peers: Vec::new(),
            incoming_challenges: Vec::new(),
            outgoing_challenges: Vec::new(),
            last_ping: None,
        }
    }

    pub fn server_addr(&self) -> (r: Address)
        ensures
            r == self@.server_addr,
    {
        self.server_addr
    }

    pub fn status(&self) -> (r: Status)
        ensures
            r == self@.status,
    {
        self.status
    }

    pub fn server_connection(&self) -> (r: ServerConnection)
        ensures
            r == self@.connection,
    {
        self.server_connection
    }

    /// Asks to be queued: from `Idle` only, else nothing happens. Returns the
    /// request for the server, if any.
    pub fn queue(&mut self, now: u128) -> (r: Option<ClientToServer>)
        requires
            old(self).wf(),
        ensures
            final(self).wf(),
            final(self)@ == after_queue(old(self)@, now),
            r == if old(self)@.status is Idle {
                Some(ClientToServer::Queue)
            } else {
                None
            },
    {
        if let Status::Idle = self.status {
            if let ServerConnection::Disconnected = self.server_connection {
                let deadline = if now <= u128::MAX - CONNECT_TIMEOUT_NANOS {
                    now + CONNECT_TIMEOUT_NANOS
                } else {
                    u128::MAX
                };
                self.server_connection = ServerConnection::Connecting(deadline);
            }
            self.status = Status::QueuePending;
            Some(ClientToServer::Queue)
        } else {
            None
        }
    }

    /// Leaves the queue, from `QueuePending` or `Queued` only. Returns the
    /// request for the server, if any.
    pub fn dequeue(&mut self) -> (r: Option<ClientToServer>)
        requires
            old(self).wf(),
        ensures
            final(self).wf(),
            final(self)@ == after_dequeue(old(self)@),
            r == if can_dequeue(old(self)@) {
                Some(ClientToServer::Dequeue)
            } else {
                None
            },
    {
        match self.status {
            Status::QueuePending | Status::Queued => {
                self.status = Status::Idle;
                self.server_connection = ServerConnection::Disconnected;
                Some(ClientToServer::Dequeue)
            },
            _ => None,
        }
    }

    /// Challenges `peer`, whatever the status, and marks it as challenged.
    /// Returns the challenge to send.
    pub fn challenge(&mut self, peer: &mut Peer) -> (r: PeerPacket)
        requires
            old(self).wf(),
        ensures
            final(self).wf(),
            final(self)@ == after_challenge(old(self)@, old(peer).addr),
            *final(peer) == (Peer { status: PeerStatus::OutgoingChallenge, ..*old(peer) }),
            r == (PeerPacket { to: old(peer).addr, msg: ClientToClient::Challenge, reliable: true }),
    {
        proof {
            crate::address::lemma_with_no_duplicates(self.outgoing_challenges@, peer.addr);
        }
        peer.status = PeerStatus::OutgoingChallenge;
        insert_address(&mut self.outgoing_challenges, peer.addr);
        PeerPacket { to: peer.addr, msg: ClientToClient::Challenge, reliable: true }
    }

    /// Accepts the challenge of `peer`, if it challenged this client.
    /// Returns the acceptance to send, if any.
    pub fn accept(&self, peer: &mut Peer) -> (r: Option<PeerPacket>)
        ensures
            *final(peer) == *old(peer),
            r == accept_packet(self@, old(peer).addr),
    {
        if contains_address(&self.incoming_challenges, peer.addr) {
            Some(PeerPacket { to: peer.addr, msg: ClientToClient::Accept, reliable: true })
        } else {
            None
        }
    }

    /// Declines the challenge from `addr`, if there is one. Returns the refusal
    /// to send, if any.
    pub fn decline(&mut self, addr: Address) -> (r: Option<PeerPacket>)
        requires
            old(self).wf(),
        ensures
            final(self).wf(),
            final(self)@ == after_decline(old(self)@, addr),
            r == if old(self)@.incoming.contains(addr) {
                Some(PeerPacket { to: addr, msg: ClientToClient::Decline, reliable: true })
            } else {
                None
            },
    {
        proof {
            crate::address::lemma_without_no_duplicates(self.incoming_challenges@, addr);
        }
        if remove_address(&mut self.incoming_challenges, addr) {
            Some(PeerPacket { to: addr, msg: ClientToClient::Decline, reliable: true })
        } else {
            None
        }
    }

    /// The peers known, in the order they were learned of.
    pub fn peers(&self) -> (r: Vec<Peer>)
        ensures
            r@ == self@.peers,
    {
        self.peers.clone()
    }

    /// The clients whose challenge is open.
    pub fn incoming_challenges(&self) -> (r: Vec<Address>)
        ensures
            r@ == self@.incoming,
    {
        self.incoming_challenges.clone()
    }

    /// The clients this one has challenged and that have not declined.
    pub fn outgoing_challenges(&self) -> (r: Vec<Address>)
        ensures
            r@ == self@.outgoing,
    {
        self.outgoing_challenges.clone()
    }

    /// The opponent of a confirmed match, if there is one.
    pub fn check_match(&self) -> (r: Option<Address>)
        ensures
            r == match self@.status {
                Status::MatchConfirmed(a) => Some(a),
                _ => None,
            },
    {
        if let Status::MatchConfirmed(a) = self.status {
            Some(a)
        } else {
            None
        }
    }

    /// Takes in a message from the server.
    pub fn on_server_message(&mut self, msg: &ServerToClient)
        requires
            old(self).wf(),
        ensures
            final(self).wf(),
            final(self)@ == after_server_msg(old(self)@, msg@),
    {
        match msg {
            ServerToClient::Peers(list) => {
                merge_peers_in(&mut self.peers, list);
                if let Status::QueuePending = self.status {
                    self.status = Status::Queued;
                }
            },
            ServerToClient::Queued(a) => {
                put_peer_in(&mut self.peers, Peer::new(*a));
            },
            ServerToClient::Dequeued(a) => {
                drop_peer_in(&mut self.peers, *a);
            },
            ServerToClient::Alive => {},
        }
    }

    /// Takes in message `msg` from the client at `from`, received at time
    /// `now`. Returns the answer to send, if any. A `PingResponse` whose clock
    /// value lies after `now` cannot echo a probe of this client and is
    /// dropped; one from a client not in the table changes nothing.
    pub fn on_peer_message(&mut self, from: Address, msg: ClientToClient, now: u128) -> (r: Option<
        PeerPacket,
    >)
        requires
            old(self).wf(),
        ensures
            final(self).wf(),
            final(self)@ == after_peer_msg(old(self)@, from, msg, now),
            r == peer_reply(old(self)@, from, msg),
    {
        match msg {
            ClientToClient::Challenge => {
                proof {
                    crate::address::lemma_with_no_duplicates(self.incoming_challenges@, from);
                }
                insert_address(&mut self.incoming_challenges, from);
                None
            },
            ClientToClient::Accept => {
                if let Status::Queued = self.status {
                    if contains_address(&self.outgoing_challenges, from) {
                        self.status = Status::MatchPending(from);
                        return Some(
                            PeerPacket { to: from, msg: ClientToClient::Start(0), reliable: true },
                        );
                    }
                }
                None
            },
            ClientToClient::Decline => {
                proof {
                    crate::address::lemma_without_no_duplicates(self.outgoing_challenges@, from);
                }
                remove_address(&mut self.outgoing_challenges, from);
                if self.status == Status::MatchPending(from) {
                    self.status = Status::Queued;
                }
                None
            },
            ClientToClient::Start(_) => {
                if let Status::Queued = self.status {
                    self.incoming_challenges = Vec::new();
                    self.outgoing_challenges = Vec::new();
                    self.status = Status::MatchConfirmed(from);
                    Some(PeerPacket { to: from, msg: ClientToClient::Start(0), reliable: true })
                } else {
                    if self.status == Status::MatchPending(from) {
                        self.incoming_challenges = Vec::new();
                        self.outgoing_challenges = Vec::new();
                        self.status = Status::MatchConfirmed(from);
                    }
                    None
                }
            },
            ClientToClient::Ping(t) => {
                Some(PeerPacket { to: from, msg: ClientToClient::PingResponse(t), reliable: false })
            },
            ClientToClient::PingResponse(t) => {
                if t <= now {
                    ping_peer_in(&mut self.peers, from, (now - t) / 2);
                }
                None
            },
        }
    }

    /// The transport reports a connection to `addr`.
    pub fn on_connect(&mut self, addr: Address)
        requires
            old(self).wf(),
        ensures
            final(self).wf(),
            final(self)@ == after_connect(old(self)@, addr),
    {
        if addr == self.server_addr {
            self.server_connection = ServerConnection::Connected;
        }
    }

    /// The transport reports that `addr` timed out.
    pub fn on_timeout(&mut self, addr: Address)
        requires
            old(self).wf(),
        ensures
            final(self).wf(),
            final(self)@ == after_timeout(old(self)@, addr),
    {
        if addr == self.server_addr {
            self.server_connection = ServerConnection::Disconnected;
        }
    }

    /// The periodic work at time `now`: a probe to every known peer when one
    /// is due, and giving up a connection attempt whose deadline has passed.
    /// Returns the probes to send.
    pub fn tick(&mut self, now: u128) -> (r: Vec<PeerPacket>)
        requires
            old(self).wf(),
        ensures
            final(self).wf(),
            final(self)@ == after_tick(old(self)@, now),
            r@ == tick_packets(old(self)@, now),
    {
        let due = match self.last_ping {
            None => true,
            Some(t) => t <= now && now - t > PING_INTERVAL_NANOS,
        };
        let mut r: Vec<PeerPacket> = Vec::new();
        if due {
            let mut i: usize = 0;
            while i < self.peers.len()
                invariant
                    0 <= i <= self.peers@.len(),
                    r@ == pings(self.peers@.take(i as int), now),
                decreases self.peers@.len() - i,
            {
                proof {
                    let s = self.peers@;
                    assert(s.take(i as int + 1) == s.take(i as int).push(s[i as int]));
                    assert(pings(s.take(i as int + 1), now) =~= pings(s.take(i as int), now).push(
                        PeerPacket { to: s[i as int].addr, msg: ClientToClient::Ping(now), reliable: false },
                    ));
                }
                r.push(
                    PeerPacket { to: self.peers[i].addr, msg: ClientToClient::Ping(now), reliable: false },
                );
                i = i + 1;
            }
            assert(self.peers@.take(self.peers@.len() as int) == self.peers@);
            self.last_ping = Some(now);
        } else {
            assert(r@ =~= Seq::<PeerPacket>::empty());
        }
        if let ServerConnection::Connecting(deadline) = self.server_connection {
            if now > deadline {
                self.server_connection = ServerConnection::Disconnected;
            }
        }
        r
    }
}

/// Two queued clients with no message lost: `a` (at address `a_addr`)
/// challenges `b` (at `b_addr`), `b` takes the challenge in and accepts, `a`
/// takes the acceptance in and answers `Start`, `b` takes that in and answers
/// `Start`, and `a` takes that in. Both end with a match confirmed against the
/// other and no challenge left open, after that bounded exchange.
pub proof fn lemma_handshake_convergence(
    a: ClientState,
    b: ClientState,
    a_addr: Address,
    b_addr: Address,
    now: u128,
)
    requires
        state_wf(a),
        state_wf(b),
        a.status is Queued,
        b.status is Queued,
    ensures
        ({
            let a1 = after_challenge(a, b_addr);
            let b1 = after_peer_msg(b, a_addr, ClientToClient::Challenge, now);
            let a2 = after_peer_msg(a1, b_addr, ClientToClient::Accept, now);
            let b2 = after_peer_msg(b1, a_addr, ClientToClient::Start(0), now);
            let a3 = after_peer_msg(a2, b_addr, ClientToClient::Start(0), now);
            &&& accept_packet(b1, a_addr) == Some(
                PeerPacket { to: a_addr, msg: ClientToClient::Accept, reliable: true },
            )
            &&& peer_reply(a1, b_addr, ClientToClient::Accept) == Some(
                PeerPacket { to: b_addr, msg: ClientToClient::Start(0), reliable: true },
            )
            &&& peer_reply(b1, a_addr, ClientToClient::Start(0)) == Some(
                PeerPacket { to: a_addr, msg: ClientToClient::Start(0), reliable: true },
            )
            &&& b2.status == Status::MatchConfirmed(a_addr)
            &&& a3.status == Status::MatchConfirmed(b_addr)
            &&& a3.incoming.len() == 0 && a3.outgoing.len() == 0
            &&& b2.incoming.len() == 0 && b2.outgoing.len() == 0
        }),
{
    crate::address::lemma_with_no_duplicates(a.outgoing, b_addr);
    crate::address::lemma_with_no_duplicates(b.incoming, a_addr);
}

/// Once a match is confirmed, a repeated `Accept` or `Start` from anyone
/// changes nothing and sends nothing.
pub proof fn lemma_confirmed_ignores_duplicates(
    s: ClientState,
    from: Address,
    m: ClientToClient,
    now: u128,
)
    requires
        s.status is MatchConfirmed,
        m is Accept || m is Start,
    ensures
        after_peer_msg(s, from, m, now) == s,
        peer_reply(s, from, m) == None::<PeerPacket>,
{
}

/// An `Accept` that comes while the client is not queued, or from a client it
/// has not challenged, leaves the state as it was and sends nothing.
pub proof fn lemma_guarded_accept(s: ClientState, from: Address, now: u128)
    requires
        !(s.status is Queued) || !s.outgoing.contains(from),
    ensures
        after_peer_msg(s, from, ClientToClient::Accept, now) == s,
        after_peer_msg(s, from, ClientToClient::Accept, now).status == s.status,
        peer_reply(s, from, ClientToClient::Accept) == None::<PeerPacket>,
{
}

} // verus!
