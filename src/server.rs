//! The rendezvous server: a duplicate-free waiting queue of addresses, and the
//! messages each request makes it send.
use vstd::prelude::*;
use crate::address::{
    Address, without, with, contains_address, without_address, remove_address,
    lemma_without_contains, lemma_without_absent, lemma_without_len, lemma_without_no_duplicates,
    lemma_with_no_duplicates,
};
use crate::wire::{ClientToServer, ServerToClient, ServerMsg, Envelope};

verus! {

/// The queue after `src` asks to be queued.
pub open spec fn joined(q: Seq<Address>, src: Address) -> Seq<Address> {
    with(q, src)
}

/// What the server sends when `src` asks to be queued on queue `q`: the
/// waiting peers other than `src` to `src`, then, for a newcomer, `Queued(src)`
/// to each member in arrival order.
pub open spec fn join_replies(q: Seq<Address>, src: Address) -> Seq<(Address, ServerMsg)> {
    seq![(src, ServerMsg::Peers(without(q, src)))] + if q.contains(src) {
        Seq::empty()
    } else {
        q.map_values(|a: Address| (a, ServerMsg::Queued(src)))
    }
}

/// What the server sends when `src` leaves queue `q`: `Dequeued(src)` to each
/// remaining member, or nothing when `src` was not queued.
pub open spec fn leave_replies(q: Seq<Address>, src: Address) -> Seq<(Address, ServerMsg)> {
    if q.contains(src) {
        without(q, src).map_values(|a: Address| (a, ServerMsg::Dequeued(src)))
    } else {
        Seq::empty()
    }
}

/// The queue after a request `msg` from `src`.
pub open spec fn request_queue(q: Seq<Address>, src: Address, msg: ClientToServer) -> Seq<
    Address,
> {
    match msg {
        ClientToServer::Queue => joined(q, src),
        ClientToServer::Dequeue => without(q, src),
        _ => q,
    }
}

/// What the server sends for a request `msg` from `src`.
pub open spec fn request_replies(q: Seq<Address>, src: Address, msg: ClientToServer) -> Seq<
    (Address, ServerMsg),
> {
    match msg {
        ClientToServer::StatusCheck => seq![(src, ServerMsg::Alive)],
        ClientToServer::Queue => join_replies(q, src),
        ClientToServer::Dequeue => leave_replies(q, src),
        ClientToServer::Heartbeat => Seq::empty(),
    }
}

pub open spec fn envelopes_view(r: Seq<Envelope>) -> Seq<(Address, ServerMsg)> {
    r.map_values(|e: Envelope| e@)
}

proof fn lemma_envelopes_push(r: Seq<Envelope>, e: Envelope)
    ensures
        envelopes_view(r.push(e)) == envelopes_view(r).push(e@),
{
    assert(envelopes_view(r.push(e)) =~= envelopes_view(r).push(e@));
}

proof fn lemma_map_take_push(q: Seq<Address>, i: int, f: spec_fn(Address) -> (Address, ServerMsg))
    requires
        0 <= i < q.len(),
    ensures
        q.take(i + 1).map_values(f) == q.take(i).map_values(f).push(f(q[i])),
{
    assert(q.take(i + 1).map_values(f) =~= q.take(i).map_values(f).push(f(q[i])));
}

/// The rendezvous server's state: the addresses waiting, in arrival order.
pub struct Matchmaker {
    queue: Vec<Address>,
}

impl View for Matchmaker {
    type V = Seq<Address>;

    closed spec fn view(&self) -> Seq<Address> {
        self.queue@
    }
}

impl Matchmaker {
    /// An address is queued at most once.
    pub closed spec fn wf(&self) -> bool {
        self.queue@.no_duplicates()
    }

    /// An empty queue.
    pub fn new() -> (r: Matchmaker)
        ensures
            r.wf(),
            r@ == Seq::<Address>::empty(),
    {
        Matchmaker { queue: Vec::new() }
    }

    /// The addresses waiting, in arrival order.
    pub fn members(&self) -> (r: Vec<Address>)
        ensures
            r@ == self@,
    {
        self.queue.clone()
    }

    /// Handles a `Queue` request from `src` and returns what to send.
    pub fn queue(&mut self, src: Address) -> (r: Vec<Envelope>)
        requires
            old(self).wf(),
        ensures
            final(self).wf(),
            final(self)@ == joined(old(self)@, src),
            envelopes_view(r@) == join_replies(old(self)@, src),
    {
        let ghost q = self.queue@;
        let peers = without_address(&self.queue, src);
        let mut r: Vec<Envelope> = Vec::new();
        r.push(Envelope { to: src, msg: ServerToClient::Peers(peers) });
        proof {
            assert(envelopes_view(r@) =~= seq![(src, ServerMsg::Peers(without(q, src)))]);
        }
        if !contains_address(&self.queue, src) {
            let mut i: usize = 0;
            while i < self.queue.len()
                invariant
                    self.queue@ == q,
                    0 <= i <= q.len(),
                    envelopes_view(r@) =~= seq![(src, ServerMsg::Peers(without(q, src)))]
                        + q.take(i as int).map_values(|a: Address| (a, ServerMsg::Queued(src))),
                decreases q.len() - i,
            {
                let ghost before = r@;
                let e = Envelope { to: self.queue[i], msg: ServerToClient::Queued(src) };
                r.push(e);
                proof {
                    lemma_envelopes_push(before, e);
                    lemma_map_take_push(q, i as int, |a: Address| (a, ServerMsg::Queued(src)));
                }
                i = i + 1;
            }
            assert(q.take(q.len() as int) == q);
            self.queue.push(src);
            proof {
                lemma_with_no_duplicates(q, src);
            }
        }
        r
    }

    /// Handles a `Dequeue` request from `src` and returns what to send.
    pub fn dequeue(&mut self, src: Address) -> (r: Vec<Envelope>)
        requires
            old(self).wf(),
        ensures
            final(self).wf(),
            final(self)@ == without(old(self)@, src),
            envelopes_view(r@) == leave_replies(old(self)@, src),
    {
        let ghost q = self.queue@;
        proof {
            lemma_without_no_duplicates(q, src);
        }
        let mut r: Vec<Envelope> = Vec::new();
        if remove_address(&mut self.queue, src) {
            let mut i: usize = 0;
            while i < self.queue.len()
                invariant
                    self.queue@ == without(q, src),
                    0 <= i <= self.queue@.len(),
                    envelopes_view(r@) =~= self.queue@.take(i as int).map_values(
                        |a: Address| (a, ServerMsg::Dequeued(src)),
                    ),
                decreases self.queue@.len() - i,
            {
                let ghost before = r@;
                let e = Envelope { to: self.queue[i], msg: ServerToClient::Dequeued(src) };
                r.push(e);
                proof {
                    lemma_envelopes_push(before, e);
                    lemma_map_take_push(
                        self.queue@,
                        i as int,
                        |a: Address| (a, ServerMsg::Dequeued(src)),
                    );
                }
                i = i + 1;
            }
            assert(self.queue@.take(self.queue@.len() as int) == self.queue@);
        } else {
            assert(envelopes_view(r@) =~= Seq::empty());
        }
        r
    }

    /// Handles any request `msg` from `src` and returns what to send.
    pub fn handle(&mut self, src: Address, msg: ClientToServer) -> (r: Vec<Envelope>)
        requires
            old(self).wf(),
        ensures
            final(self).wf(),
            final(self)@ == request_queue(old(self)@, src, msg),
            envelopes_view(r@) == request_replies(old(self)@, src, msg),
    {
        match msg {
            ClientToServer::StatusCheck => {
                let r = vec![Envelope { to: src, msg: ServerToClient::Alive }];
                assert(envelopes_view(r@) =~= seq![(src, ServerMsg::Alive)]);
                r
            },
            ClientToServer::Queue => self.queue(src),
            ClientToServer::Dequeue => self.dequeue(src),
            ClientToServer::Heartbeat => {
                let r: Vec<Envelope> = Vec::new();
                assert(envelopes_view(r@) =~= Seq::empty());
                r
            },
        }
    }

    /// The transport reports that `addr` stopped answering: it leaves the
    /// queue, and nobody is told.
    pub fn timeout(&mut self, addr: Address)
        requires
            old(self).wf(),
        ensures
            final(self).wf(),
            final(self)@ == without(old(self)@, addr),
    {
        proof {
            lemma_without_no_duplicates(self.queue@, addr);
        }
        remove_address(&mut self.queue, addr);
    }
}

/// Three distinct clients queue in turn on an empty server. The first is sent
/// an empty peer list; the second is sent the first, and the first is told of
/// the second; the third is sent the first two, and both are told of it.
pub proof fn lemma_queue_admission_order(q1: Address, q2: Address, q3: Address)
    requires
        q1 != q2,
        q1 != q3,
        q2 != q3,
    ensures
        joined(Seq::empty(), q1) == seq![q1],
        joined(seq![q1], q2) == seq![q1, q2],
        joined(seq![q1, q2], q3) == seq![q1, q2, q3],
        join_replies(Seq::empty(), q1) == seq![(q1, ServerMsg::Peers(Seq::empty()))],
        join_replies(seq![q1], q2) == seq![
            (q2, ServerMsg::Peers(seq![q1])),
            (q1, ServerMsg::Queued(q2)),
        ],
        join_replies(seq![q1, q2], q3) == seq![
            (q3, ServerMsg::Peers(seq![q1, q2])),
            (q1, ServerMsg::Queued(q3)),
            (q2, ServerMsg::Queued(q3)),
        ],
{
    let e = Seq::<Address>::empty();
    assert(!e.contains(q1));
    assert(!seq![q1].contains(q2)) by {
        assert(seq![q1][0] == q1);
    }
    assert(!seq![q1, q2].contains(q3)) by {
        assert(seq![q1, q2][0] == q1 && seq![q1, q2][1] == q2);
    }
    lemma_without_absent(e, q1);
    lemma_without_absent(seq![q1], q2);
    lemma_without_absent(seq![q1, q2], q3);
    assert(e.push(q1) =~= seq![q1]);
    assert(seq![q1].push(q2) =~= seq![q1, q2]);
    assert(seq![q1, q2].push(q3) =~= seq![q1, q2, q3]);
    assert(join_replies(e, q1) =~= seq![(q1, ServerMsg::Peers(e))]);
    assert(join_replies(seq![q1], q2) =~= seq![
        (q2, ServerMsg::Peers(seq![q1])),
        (q1, ServerMsg::Queued(q2)),
    ]);
    assert(join_replies(seq![q1, q2], q3) =~= seq![
        (q3, ServerMsg::Peers(seq![q1, q2])),
        (q1, ServerMsg::Queued(q3)),
        (q2, ServerMsg::Queued(q3)),
    ]);
}

/// A member leaving a queue is announced to every other member and to no one
/// else, and the peer list that any later newcomer is sent leaves it out.
/// For three distinct clients queued in turn, the second leaving tells the
/// first and the third.
pub proof fn lemma_dequeue_broadcast(q: Seq<Address>, a: Address)
    requires
        q.no_duplicates(),
        q.contains(a),
    ensures
        leave_replies(q, a).len() == q.len() - 1,
        forall|i: int|
            0 <= i < leave_replies(q, a).len() ==> {
                &&& leave_replies(q, a)[i].0 != a
                &&& q.contains(leave_replies(q, a)[i].0)
                &&& leave_replies(q, a)[i].1 == ServerMsg::Dequeued(a)
            },
        forall|b: Address| q.contains(b) && b != a ==> exists|i: int|
            0 <= i < leave_replies(q, a).len() && leave_replies(q, a)[i].0 == b,
        forall|c: Address, s: Seq<Address>|
            join_replies(without(q, a), c)[0] == (c, ServerMsg::Peers(s)) ==> !s.contains(a),
{
    let w = without(q, a);
    lemma_without_no_duplicates(q, a);
    lemma_without_len(q, a);
    assert forall|i: int| 0 <= i < w.len() implies w[i] != a && q.contains(w[i]) by {
        assert(w.contains(w[i]));
        lemma_without_contains(q, a, w[i]);
    }
    assert forall|b: Address| q.contains(b) && b != a implies exists|i: int|
        0 <= i < leave_replies(q, a).len() && leave_replies(q, a)[i].0 == b by {
        lemma_without_contains(q, a, b);
        let i = choose|i: int| 0 <= i < w.len() && w[i] == b;
        assert(leave_replies(q, a)[i].0 == b);
    }
    assert forall|c: Address, s: Seq<Address>|
        join_replies(w, c)[0] == (c, ServerMsg::Peers(s)) implies !s.contains(a) by {
        assert(join_replies(w, c)[0] == (c, ServerMsg::Peers(without(w, c))));
        lemma_without_contains(w, c, a);
        lemma_without_contains(q, a, a);
    }
}

/// The three-client case of the law above: after Q1, Q2 and Q3 queue, Q2
/// leaving sends `Dequeued(Q2)` to Q1 and Q3 only.
pub proof fn lemma_dequeue_broadcast_of_three(q1: Address, q2: Address, q3: Address)
    requires
        q1 != q2,
        q1 != q3,
        q2 != q3,
    ensures
        without(seq![q1, q2, q3], q2) == seq![q1, q3],
        leave_replies(seq![q1, q2, q3], q2) == seq![
            (q1, ServerMsg::Dequeued(q2)),
            (q3, ServerMsg::Dequeued(q2)),
        ],
{
    let q = seq![q1, q2, q3];
    assert(q[1] == q2);
    assert(q.drop_last() =~= seq![q1, q2]);
    assert(seq![q1, q2].drop_last() =~= seq![q1]);
    assert(seq![q1].drop_last() =~= Seq::<Address>::empty());
    assert(without(Seq::<Address>::empty(), q2) == Seq::<Address>::empty());
    assert(seq![q1].last() == q1);
    assert(Seq::<Address>::empty().push(q1) =~= seq![q1]);
    assert(without(seq![q1], q2) =~= seq![q1]);
    assert(without(seq![q1, q2], q2) =~= seq![q1]);
    assert(without(q, q2) =~= seq![q1, q3]);
    assert(leave_replies(q, q2) =~= seq![
        (q1, ServerMsg::Dequeued(q2)),
        (q3, ServerMsg::Dequeued(q2)),
    ]);
}

/// A member that times out is gone from the peer list that any later newcomer
/// is sent, though no one was told of its leaving.
pub proof fn lemma_timeout_eviction(q: Seq<Address>, a: Address, c: Address)
    ensures
        !without(q, a).contains(a),
        join_replies(without(q, a), c)[0] == (c, ServerMsg::Peers(without(without(q, a), c))),
        !without(without(q, a), c).contains(a),
{
    lemma_without_contains(q, a, a);
    lemma_without_contains(without(q, a), c, a);
}

} // verus!
