//! The client's peer table: a sequence of peers, unique by address.
use vstd::prelude::*;
use crate::address::Address;
use crate::peer::{Peer, fresh_peer, with_ping};

verus! {

pub open spec fn has_peer(s: Seq<Peer>, a: Address) -> bool {
    exists|i: int| 0 <= i < s.len() && s[i].addr == a
}

/// No two entries share an address.
pub open spec fn unique_peers(s: Seq<Peer>) -> bool {
    forall|i: int, j: int| 0 <= i < s.len() && 0 <= j < s.len() && s[i].addr == s[j].addr ==> i == j
}

/// The table with `p` stored under its address, in place of any entry there.
pub open spec fn put_peer(s: Seq<Peer>, p: Peer) -> Seq<Peer> {
    if has_peer(s, p.addr) {
        s.map_values(|q: Peer| if q.addr == p.addr { p } else { q })
    } else {
        s.push(p)
    }
}

/// The table without the entry for `a`.
pub open spec fn drop_peer(s: Seq<Peer>, a: Address) -> Seq<Peer> {
    s.filter(addr_not(a))
}

pub open spec fn addr_not(a: Address) -> spec_fn(Peer) -> bool {
    |p: Peer| p.addr != a
}

/// The table with a fresh entry for each address of `l`, in order.
pub open spec fn merge_peers(s: Seq<Peer>, l: Seq<Address>) -> Seq<Peer>
    decreases l.len(),
{
    if l.len() == 0 {
        s
    } else {
        put_peer(merge_peers(s, l.drop_last()), fresh_peer(l.last()))
    }
}

/// The table with a latency sample added to the entry for `a`, if any.
pub open spec fn ping_peer(s: Seq<Peer>, a: Address, sample: u128) -> Seq<Peer> {
    s.map_values(|p: Peer| if p.addr == a { with_ping(p, sample) } else { p })
}

/// Index of the entry for `a`.
pub fn find_peer(v: &Vec<Peer>, a: Address) -> (r: Option<usize>)
    ensures
        match r {
            Some(i) => i < v@.len() && v@[i as int].addr == a,
            None => !has_peer(v@, a),
        },
{
    let mut i: usize = 0;
    while i < v.len()
        invariant
            0 <= i <= v.len(),
            forall|j: int| 0 <= j < i ==> v@[j].addr != a,
        decreases v.len() - i,
    {
        if v[i].addr == a {
            return Some(i);
        }
        i = i + 1;
    }
    None
}

proof fn lemma_update_is_map(s: Seq<Peer>, i: int, p: Peer, f: spec_fn(Peer) -> Peer)
    requires
        unique_peers(s),
        0 <= i < s.len(),
        s[i].addr == p.addr,
        f(s[i]) == p,
        forall|q: Peer| q.addr != p.addr ==> f(q) == q,
    ensures
        s.update(i, p) == s.map_values(f),
        unique_peers(s.update(i, p)),
{
    assert forall|j: int| 0 <= j < s.len() implies s.update(i, p)[j] == s.map_values(f)[j] by {
        if j != i {
            assert(s[j].addr != p.addr);
        }
    }
    assert(s.update(i, p) =~= s.map_values(f));
}

/// Stores `p` under its address.
pub fn put_peer_in(v: &mut Vec<Peer>, p: Peer)
    requires
        unique_peers(old(v)@),
    ensures
        unique_peers(final(v)@),
        final(v)@ == put_peer(old(v)@, p),
{
    match find_peer(v, p.addr) {
        Some(i) => {
            proof {
                lemma_update_is_map(v@, i as int, p, |q: Peer| if q.addr == p.addr { p } else { q });
            }
            v.set(i, p);
        },
        None => {
            proof {
                lemma_unique_push(v@, p);
            }
            v.push(p);
        },
    }
}

proof fn lemma_unique_drop_last(s: Seq<Peer>)
    requires
        unique_peers(s),
        s.len() > 0,
    ensures
        unique_peers(s.drop_last()),
{
    let d = s.drop_last();
    assert forall|i: int, j: int| 0 <= i < d.len() && 0 <= j < d.len() && d[i].addr == d[j].addr implies i
        == j by {
        assert(d[i] == s[i] && d[j] == s[j]);
    }
}

proof fn lemma_unique_push(s: Seq<Peer>, p: Peer)
    requires
        unique_peers(s),
        !has_peer(s, p.addr),
    ensures
        unique_peers(s.push(p)),
{
    let t = s.push(p);
    assert forall|i: int, j: int| 0 <= i < t.len() && 0 <= j < t.len() && t[i].addr == t[j].addr implies i
        == j by {
        if i == s.len() && j < s.len() {
            assert(s[j] == t[j]);
        } else if j == s.len() && i < s.len() {
            assert(s[i] == t[i]);
        } else if i < s.len() && j < s.len() {
            assert(s[i] == t[i] && s[j] == t[j]);
        }
    }
}

proof fn lemma_drop_peer_unique(s: Seq<Peer>, a: Address)
    requires
        unique_peers(s),
    ensures
        unique_peers(drop_peer(s, a)),
    decreases s.len(),
{
    reveal(Seq::filter);
    if s.len() > 0 {
        let d = s.drop_last();
        lemma_unique_drop_last(s);
        lemma_drop_peer_unique(d, a);
        let f = drop_peer(d, a);
        if s.last().addr != a {
            assert(drop_peer(s, a) == f.push(s.last()));
            assert forall|k: int| 0 <= k < f.len() implies f[k].addr != s.last().addr by {
                assert(f.contains(f[k]));
                d.lemma_filter_contains_rev(addr_not(a), f[k]);
                let j = choose|j: int| 0 <= j < d.len() && d[j] == f[k];
                assert(s[j] == f[k]);
                assert(s[s.len() - 1] == s.last());
            }
            lemma_unique_push(f, s.last());
        }
    }
}

/// Removes the entry for `a`.
pub fn drop_peer_in(v: &mut Vec<Peer>, a: Address)
    requires
        unique_peers(old(v)@),
    ensures
        unique_peers(final(v)@),
        final(v)@ == drop_peer(old(v)@, a),
{
    let ghost s = v@;
    let mut r: Vec<Peer> = Vec::new();
    let mut i: usize = 0;
    while i < v.len()
        invariant
            v@ == s,
            0 <= i <= s.len(),
            r@ == drop_peer(s.take(i as int), a),
        decreases s.len() - i,
    {
        proof {
            assert(s.take(i as int + 1) == s.take(i as int).push(s[i as int]));
            s.take(i as int).lemma_filter_push(s[i as int], addr_not(a));
        }
        if v[i].addr != a {
            r.push(v[i]);
        }
        i = i + 1;
    }
    proof {
        assert(s.take(s.len() as int) == s);
        lemma_drop_peer_unique(s, a);
    }
    *v = r;
}

/// Adds a latency sample to the entry for `a`, if there is one.
pub fn ping_peer_in(v: &mut Vec<Peer>, a: Address, sample: u128)
    requires
        unique_peers(old(v)@),
    ensures
        unique_peers(final(v)@),
        final(v)@ == ping_peer(old(v)@, a, sample),
{
    let ghost f = |p: Peer| if p.addr == a { with_ping(p, sample) } else { p };
    match find_peer(v, a) {
        Some(i) => {
            let mut p = v[i];
            p.add_ping(sample);
            proof {
                lemma_update_is_map(v@, i as int, p, f);
            }
            v.set(i, p);
        },
        None => {
            assert(v@.map_values(f) =~= v@);
        },
    }
}

/// Adds a fresh entry for each address of `l`.
pub fn merge_peers_in(v: &mut Vec<Peer>, l: &Vec<Address>)
    requires
        unique_peers(old(v)@),
    ensures
        unique_peers(final(v)@),
        final(v)@ == merge_peers(old(v)@, l@),
{
    let ghost s = v@;
    let mut i: usize = 0;
    while i < l.len()
        invariant
            0 <= i <= l.len(),
            unique_peers(v@),
            v@ == merge_peers(s, l@.take(i as int)),
        decreases l.len() - i,
    {
        proof {
            assert(l@.take(i as int + 1).drop_last() == l@.take(i as int));
            assert(l@.take(i as int + 1).last() == l@[i as int]);
        }
        let p = Peer::new(l[i]);
        put_peer_in(v, p);
        i = i + 1;
    }
    assert(l@.take(l.len() as int) == l@);
}

} // verus!
