//! Transport endpoints and the duplicate-free address lists built on them.
use vstd::prelude::*;

verus! {

/// A transport endpoint: an IPv6 address (IPv4 addresses are stored in their
/// IPv4-mapped form) and a port.
#[derive(Clone, Copy, Debug, PartialEq, Eq, Hash, Structural)]
pub struct Address {
    pub ip: u128,
    pub port: u16,
}

impl Address {
    pub fn new(ip: u128, port: u16) -> (r: Address)
        ensures
            r.ip == ip,
            r.port == port,
    {
        Address { ip, port }
    }
}

/// `s` with every occurrence of `a` taken out, the others kept in order.
pub open spec fn without(s: Seq<Address>, a: Address) -> Seq<Address>
    decreases s.len(),
{
    if s.len() == 0 {
        s
    } else if s.last() == a {
        without(s.drop_last(), a)
    } else {
        without(s.drop_last(), a).push(s.last())
    }
}

/// `s` with `a` added at the end, unless it is already there.
pub open spec fn with(s: Seq<Address>, a: Address) -> Seq<Address> {
    if s.contains(a) {
        s
    } else {
        s.push(a)
    }
}

pub proof fn lemma_without_contains(s: Seq<Address>, a: Address, b: Address)
    ensures
        without(s, a).contains(b) <==> (s.contains(b) && b != a),
    decreases s.len(),
{
    if s.len() > 0 {
        lemma_without_contains(s.drop_last(), a, b);
        assert(s == s.drop_last().push(s.last()));
        if s.contains(b) && b != s.last() {
            let i = choose|i: int| 0 <= i < s.len() && s[i] == b;
            assert(s.drop_last()[i] == b);
        }
        if s.drop_last().contains(b) {
            let i = choose|i: int| 0 <= i < s.drop_last().len() && s.drop_last()[i] == b;
            assert(s[i] == b);
        }
        if s.last() != a {
            let w = without(s.drop_last(), a);
            if w.contains(b) {
                let i = choose|i: int| 0 <= i < w.len() && w[i] == b;
                assert(w.push(s.last())[i] == b);
            }
            if w.push(s.last()).contains(b) && b != s.last() {
                let i = choose|i: int| 0 <= i < w.len() + 1 && w.push(s.last())[i] == b;
                assert(w[i] == b);
            }
            assert(w.push(s.last())[w.len() as int] == s.last());
        }
        assert(s[s.len() - 1] == s.last());
    }
}

pub proof fn lemma_without_len(s: Seq<Address>, a: Address)
    requires
        s.no_duplicates(),
    ensures
        without(s, a).len() == if s.contains(a) {
            s.len() - 1
        } else {
            s.len() as int
        },
    decreases s.len(),
{
    if s.len() > 0 {
        let d = s.drop_last();
        assert(s[s.len() - 1] == s.last());
        assert(d.no_duplicates()) by {
            assert forall|i: int, j: int| 0 <= i < d.len() && 0 <= j < d.len() && i != j implies d[i]
                != d[j] by {
                assert(d[i] == s[i] && d[j] == s[j]);
            }
        }
        lemma_without_len(d, a);
        assert(s == d.push(s.last()));
        if d.contains(a) {
            let i = choose|i: int| 0 <= i < d.len() && d[i] == a;
            assert(s[i] == a);
            assert(s.contains(a));
            assert(s.last() != a);
        }
        if s.contains(a) && s.last() != a {
            let i = choose|i: int| 0 <= i < s.len() && s[i] == a;
            assert(d[i] == a);
        }
        if !s.contains(a) {
            assert(s.last() != a);
            if d.contains(a) {
                let i = choose|i: int| 0 <= i < d.len() && d[i] == a;
                assert(s[i] == a);
            }
        }
    }
}

pub proof fn lemma_without_absent(s: Seq<Address>, a: Address)
    requires
        !s.contains(a),
    ensures
        without(s, a) == s,
    decreases s.len(),
{
    if s.len() > 0 {
        assert(s[s.len() - 1] == s.last());
        if s.drop_last().contains(a) {
            let i = choose|i: int| 0 <= i < s.drop_last().len() && s.drop_last()[i] == a;
            assert(s[i] == a);
        }
        lemma_without_absent(s.drop_last(), a);
        assert(s == s.drop_last().push(s.last()));
    }
}

pub proof fn lemma_without_no_duplicates(s: Seq<Address>, a: Address)
    requires
        s.no_duplicates(),
    ensures
        without(s, a).no_duplicates(),
    decreases s.len(),
{
    if s.len() > 0 {
        let d = s.drop_last();
        assert(d.no_duplicates()) by {
            assert forall|i: int, j: int| 0 <= i < d.len() && 0 <= j < d.len() && i != j implies d[i]
                != d[j] by {
                assert(d[i] == s[i] && d[j] == s[j]);
            }
        }
        lemma_without_no_duplicates(d, a);
        if s.last() != a {
            let w = without(d, a);
            lemma_without_contains(d, a, s.last());
            if d.contains(s.last()) {
                let i = choose|i: int| 0 <= i < d.len() && d[i] == s.last();
                assert(s[i] == s[s.len() - 1]);
            }
            let wp = w.push(s.last());
            assert forall|i: int, j: int| 0 <= i < wp.len() && 0 <= j < wp.len() && i != j implies wp[i]
                != wp[j] by {
                if i == w.len() && j < w.len() {
                    assert(w[j] == wp[j] && w.contains(w[j]));
                } else if j == w.len() && i < w.len() {
                    assert(w[i] == wp[i] && w.contains(w[i]));
                } else {
                    assert(wp[i] == w[i] && wp[j] == w[j]);
                }
            }
        }
    }
}

pub proof fn lemma_with_no_duplicates(s: Seq<Address>, a: Address)
    requires
        s.no_duplicates(),
    ensures
        with(s, a).no_duplicates(),
        with(s, a).contains(a),
        forall|b: Address| with(s, a).contains(b) <==> (s.contains(b) || b == a),
{
    let w = with(s, a);
    if !s.contains(a) {
        assert(w[s.len() as int] == a);
        assert forall|i: int, j: int| 0 <= i < w.len() && 0 <= j < w.len() && i != j implies w[i]
            != w[j] by {
            if i == s.len() && j < s.len() {
                assert(s[j] == w[j]);
            } else if j == s.len() && i < s.len() {
                assert(s[i] == w[i]);
            }
        }
        assert forall|b: Address| w.contains(b) <==> (s.contains(b) || b == a) by {
            if w.contains(b) && b != a {
                let i = choose|i: int| 0 <= i < w.len() && w[i] == b;
                assert(s[i] == b);
            }
            if s.contains(b) {
                let i = choose|i: int| 0 <= i < s.len() && s[i] == b;
                assert(w[i] == b);
            }
        }
    }
}

/// Whether `a` occurs in `v`.
pub fn contains_address(v: &Vec<Address>, a: Address) -> (r: bool)
    ensures
        r == v@.contains(a),
{
    let mut i: usize = 0;
    while i < v.len()
        invariant
            0 <= i <= v.len(),
            forall|j: int| 0 <= j < i ==> v@[j] != a,
        decreases v.len() - i,
    {
        if v[i] == a {
            return true;
        }
        i = i + 1;
    }
    false
}

/// A copy of `v` without `a`.
pub fn without_address(v: &Vec<Address>, a: Address) -> (r: Vec<Address>)
    ensures
        r@ == without(v@, a),
{
    let mut r: Vec<Address> = Vec::new();
    let mut i: usize = 0;
    while i < v.len()
        invariant
            0 <= i <= v.len(),
            r@ == without(v@.take(i as int), a),
        decreases v.len() - i,
    {
        assert(v@.take(i as int + 1).drop_last() == v@.take(i as int));
        if v[i] != a {
            r.push(v[i]);
        }
        i = i + 1;
    }
    assert(v@.take(v.len() as int) == v@);
    r
}

/// Adds `a` at the end of `v` unless it is there already.
pub fn insert_address(v: &mut Vec<Address>, a: Address)
    ensures
        final(v)@ == with(old(v)@, a),
{
    if !contains_address(v, a) {
        v.push(a);
    }
}

/// Takes `a` out of `v`; says whether it was there.
pub fn remove_address(v: &mut Vec<Address>, a: Address) -> (r: bool)
    ensures
        r == old(v)@.contains(a),
        final(v)@ == without(old(v)@, a),
{
    let r = contains_address(v, a);
    *v = without_address(v, a);
    r
}

} // verus!
