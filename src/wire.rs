//! The two closed message sets: between a client and the rendezvous server,
//! and between two clients.
use vstd::prelude::*;
use crate::address::Address;

verus! {

/// Port on which the rendezvous server listens.
pub const SERVER_PORT: u16 = 44444;

/// Port on which a client listens.
pub const CLIENT_PORT: u16 = 44445;

/// A request from a client to the rendezvous server.
#[derive(Clone, Copy, Debug, PartialEq, Eq, Structural)]
pub enum ClientToServer {
    StatusCheck,
    Queue,
    Dequeue,
    Heartbeat,
}

/// A message from the rendezvous server to a client.
#[derive(Clone, Debug)]
pub enum ServerToClient {
    Alive,
    Peers(Vec<Address>),
    Queued(Address),
    Dequeued(Address),
}

/// What a `ServerToClient` says, with the peer list as a sequence.
pub enum ServerMsg {
    Alive,
    Peers(Seq<Address>),
    Queued(Address),
    Dequeued(Address),
}

impl View for ServerToClient {
    type V = ServerMsg;

    open spec fn view(&self) -> ServerMsg {
        match self {
            ServerToClient::Alive => ServerMsg::Alive,
            ServerToClient::Peers(v) => ServerMsg::Peers(v@),
            ServerToClient::Queued(a) => ServerMsg::Queued(*a),
            ServerToClient::Dequeued(a) => ServerMsg::Dequeued(*a),
        }
    }
}

fn same_addresses(a: &Vec<Address>, b: &Vec<Address>) -> (r: bool)
    ensures
        r == (a@ == b@),
{
    if a.len() != b.len() {
        return false;
    }
    let mut i: usize = 0;
    while i < a.len()
        invariant
            a.len() == b.len(),
            0 <= i <= a.len(),
            forall|j: int| 0 <= j < i ==> a@[j] == b@[j],
        decreases a.len() - i,
    {
        if a[i] != b[i] {
            return false;
        }
        i = i + 1;
    }
    assert(a@ =~= b@);
    true
}

impl PartialEq for ServerToClient {
    fn eq(&self, o: &ServerToClient) -> (r: bool) {
        match (self, o) {
            (ServerToClient::Alive, ServerToClient::Alive) => true,
            (ServerToClient::Peers(a), ServerToClient::Peers(b)) => same_addresses(a, b),
            (ServerToClient::Queued(a), ServerToClient::Queued(b)) => *a == *b,
            (ServerToClient::Dequeued(a), ServerToClient::Dequeued(b)) => *a == *b,
            _ => false,
        }
    }
}

impl vstd::std_specs::cmp::PartialEqSpecImpl for ServerToClient {
    open spec fn obeys_eq_spec() -> bool {
        true
    }

    open spec fn eq_spec(&self, o: &ServerToClient) -> bool {
        self@ == o@
    }
}

/// A message between two clients.
#[derive(Clone, Copy, Debug, PartialEq, Eq, Structural)]
pub enum ClientToClient {
    /// A latency probe carrying the sender's clock.
    Ping(u128),
    /// The answer to a probe, echoing its clock value.
    PingResponse(u128),
    Challenge,
    Accept,
    Decline,
    Start(u128),
}

/// One frame's input of one player, either confirmed by its owner or predicted.
#[derive(Clone, Copy, Debug, PartialEq, Eq, Structural)]
pub enum Input<T> {
    Confirmed(T),
    Unconfirmed(T),
}

/// A message for the rendezvous server to send.
#[derive(Clone, Debug)]
pub struct Envelope {
    pub to: Address,
    pub msg: ServerToClient,
}

impl View for Envelope {
    type V = (Address, ServerMsg);

    open spec fn view(&self) -> (Address, ServerMsg) {
        (self.to, self.msg@)
    }
}

/// A message for a client to send to another client.
#[derive(Clone, Copy, Debug, PartialEq, Eq, Structural)]
pub struct PeerPacket {
    pub to: Address,
    pub msg: ClientToClient,
    /// Reliable (unordered) delivery when set, fire-and-forget otherwise.
    pub reliable: bool,
}

} // verus!
