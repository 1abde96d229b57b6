//! Lists of port numbers, read as sets.
use vstd::prelude::*;

verus! {

/// The ports in a list.
pub open spec fn set_of(s: Seq<u16>) -> Set<u16> {
    Set::new(|p: u16| s.contains(p))
}

/// Membership after appending one element.
pub proof fn lemma_contains_push(s: Seq<u16>, x: u16)
    ensures
        forall|q: u16| #[trigger] s.push(x).contains(q) <==> (s.contains(q) || q == x),
{
    let t = s.push(x);
    assert forall|q: u16| t.contains(q) <==> (s.contains(q) || q == x) by {
        if t.contains(q) {
            let k = choose|k: int| 0 <= k < t.len() && t[k] == q;
            if k < s.len() {
                assert(s[k] == q);
            }
        }
        if s.contains(q) {
            let k = choose|k: int| 0 <= k < s.len() && s[k] == q;
            assert(t[k] == q);
        }
        if q == x {
            assert(t[s.len() as int] == q);
        }
    }
}

/// Membership in a prefix one element longer.
pub proof fn lemma_contains_take_next(s: Seq<u16>, i: int)
    requires
        0 <= i < s.len(),
    ensures
        forall|q: u16| #[trigger] s.take(i + 1).contains(q) <==> (s.take(i).contains(q) || q == s[i]),
{
    assert(s.take(i + 1) =~= s.take(i).push(s[i]));
    lemma_contains_push(s.take(i), s[i]);
}

pub fn contains_port(v: &Vec<u16>, p: u16) -> (r: bool)
    ensures
        r == v@.contains(p),
{
    let mut i: usize = 0;
    while i < v.len()
        invariant
            i <= v.len(),
            forall|k: int| 0 <= k < i ==> v@[k] != p,
        decreases v.len() - i,
    {
        if v[i] == p {
            assert(v@[i as int] == p);
            return true;
        }
        i = i + 1;
    }
    false
}

/// Appending `x`, absent so far, keeps a list free of duplicates.
pub proof fn lemma_push_no_duplicates(s: Seq<u16>, x: u16)
    requires
        s.no_duplicates(),
        !s.contains(x),
    ensures
        s.push(x).no_duplicates(),
{
    let t = s.push(x);
    assert forall|a: int, b: int| 0 <= a < t.len() && 0 <= b < t.len() && a != b implies t[a] != t[b] by {
        if a < s.len() && b < s.len() {
        } else if a < s.len() {
            assert(s[a] == t[a]);
        } else if b < s.len() {
            assert(s[b] == t[b]);
        }
    }
}

/// Adds to `acc` each port of `ports` that is not in `exclude` and not in
/// `acc` yet.
pub fn add_ports(acc: &mut Vec<u16>, ports: &Vec<u16>, exclude: &Vec<u16>)
    requires
        old(acc)@.no_duplicates(),
    ensures
        final(acc)@.no_duplicates(),
        set_of(final(acc)@) =~= set_of(old(acc)@).union(
            set_of(ports@).difference(set_of(exclude@)),
        ),
{
    let ghost orig = acc@;
    let mut i: usize = 0;
    while i < ports.len()
        invariant
            i <= ports.len(),
            acc@.no_duplicates(),
            forall|q: u16| #[trigger] acc@.contains(q) <==> (orig.contains(q) || (ports@.take(
                i as int,
            ).contains(q) && !exclude@.contains(q))),
        decreases ports.len() - i,
    {
        let p = ports[i];
        let ghost before = acc@;
        proof {
            lemma_contains_take_next(ports@, i as int);
        }
        if !contains_port(exclude, p) && !contains_port(acc, p) {
            acc.push(p);
            proof {
                lemma_contains_push(before, p);
                lemma_push_no_duplicates(before, p);
                assert(acc@ == before.push(p));
            }
        }
        i = i + 1;
    }
    assert(ports@.take(ports.len() as int) =~= ports@);
}

/// The ports of `v` that are also in `keep` (`keep == true`) or not in it
/// (`keep == false`), order kept.
pub fn filter_ports(v: &Vec<u16>, other: &Vec<u16>, keep: bool) -> (r: Vec<u16>)
    requires
        v@.no_duplicates(),
    ensures
        r@.no_duplicates(),
        set_of(r@) =~= if keep {
            set_of(v@).intersect(set_of(other@))
        } else {
            set_of(v@).difference(set_of(other@))
        },
{
    let mut r: Vec<u16> = Vec::new();
    let mut i: usize = 0;
    while i < v.len()
        invariant
            i <= v.len(),
            v@.no_duplicates(),
            r@.no_duplicates(),
            forall|q: u16| r@.contains(q) ==> v@.take(i as int).contains(q),
            forall|q: u16| #[trigger] r@.contains(q) <==> (v@.take(i as int).contains(q) && (other@.contains(q) == keep)),
        decreases v.len() - i,
    {
        let p = v[i];
        let ghost before = r@;
        let inside = contains_port(other, p);
        proof {
            lemma_contains_take_next(v@, i as int);
            assert(!v@.take(i as int).contains(p)) by {
                let t = v@.take(i as int);
                if t.contains(p) {
                    let k = choose|k: int| 0 <= k < t.len() && t[k] == p;
                    assert(v@[k] == v@[i as int]);
                }
            }
        }
        if inside == keep {
            r.push(p);
            proof {
                lemma_contains_push(before, p);
                lemma_push_no_duplicates(before, p);
                assert(r@ == before.push(p));
            }
        }
        i = i + 1;
    }
    assert(v@.take(v.len() as int) =~= v@);
    r
}

} // verus!
