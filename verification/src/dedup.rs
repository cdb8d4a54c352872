//! The session-scoped deduplication set: the addresses already observed in
//! the current capture session. Observing an address inserts it and reports
//! whether it was newly inserted; a reset discards all membership state, so
//! a cleared set behaves as freshly created.
use vstd::prelude::*;

use crate::addr::IpAddress;

verus! {

/// The set of addresses observed so far in one capture session.
pub struct SessionDedup {
    seen: Vec<IpAddress>,
}

impl View for SessionDedup {
    type V = Set<IpAddress>;

    closed spec fn view(&self) -> Set<IpAddress> {
        self.seen@.to_set()
    }
}

/// What one observation does: the address joins the set, and it is reported
/// as new exactly when the set did not hold it before.
pub open spec fn observe_transition(
    pre: Set<IpAddress>,
    a: IpAddress,
    post: Set<IpAddress>,
    newly: bool,
) -> bool {
    post == pre.insert(a) && newly == !pre.contains(a)
}

impl SessionDedup {
    /// An empty session set.
    pub fn new() -> (s: Self)
        ensures
            s@ == Set::<IpAddress>::empty(),
    {
        let s = SessionDedup { seen: Vec::new() };
        proof {
            assert(s.seen@.to_set() =~= Set::<IpAddress>::empty());
        }
        s
    }

    fn contains(&self, a: &IpAddress) -> (r: bool)
        ensures
            r == self@.contains(*a),
    {
        let n = self.seen.len();
        let mut i: usize = 0;
        while i < n
            invariant
                n == self.seen@.len(),
                0 <= i <= n,
                forall|j: int| 0 <= j < i ==> self.seen@[j] != *a,
            decreases n - i,
        {
            if self.seen[i] == *a {
                assert(self.seen@.contains(*a));
                return true;
            }
            i = i + 1;
        }
        assert(!self.seen@.contains(*a));
        false
    }

    /// Inserts the address and returns whether it was newly inserted (true)
    /// or already present (false).
    pub fn observe(&mut self, a: &IpAddress) -> (newly: bool)
        ensures
            observe_transition(old(self)@, *a, final(self)@, newly),
    {
        if self.contains(a) {
            proof {
                assert(old(self)@.insert(*a) =~= old(self)@);
            }
            false
        } else {
            self.seen.push(*a);
            proof {
                assert(old(self).seen@.push(*a).to_set() =~= old(self).seen@.to_set().insert(*a))
                    by {
                    Seq::lemma_push_to_set_commute(old(self).seen@, *a);
                }
            }
            true
        }
    }

    /// Discards all membership state; the set behaves as freshly created.
    pub fn reset(&mut self)
        ensures
            final(self)@ == Set::<IpAddress>::empty(),
    {
        self.seen.clear();
        proof {
            assert(self.seen@.to_set() =~= Set::<IpAddress>::empty());
        }
    }
}

/// How many newly-seen events observing `addrs` in order produces, starting
/// from session set `seen`. Each step is one `observe`: the address joins
/// the set and counts exactly when the set did not hold it yet. The
/// pipeline issues exactly one persistence upsert and hands off exactly one
/// enrichment task — hence one notification — per newly-seen event.
pub open spec fn new_discoveries(seen: Set<IpAddress>, addrs: Seq<IpAddress>) -> nat
    decreases addrs.len(),
{
    if addrs.len() == 0 {
        0
    } else {
        (if seen.contains(addrs[0]) {
            0nat
        } else {
            1nat
        }) + new_discoveries(seen.insert(addrs[0]), addrs.skip(1))
    }
}

/// A batch of pairwise-distinct addresses, none of them seen yet in the
/// session, is reported as new in full: observing it produces one
/// newly-seen event — one upsert and one notification — per address.
pub proof fn lemma_distinct_fresh_batch(seen: Set<IpAddress>, addrs: Seq<IpAddress>)
    requires
        forall|i: int, j: int| 0 <= i < j < addrs.len() ==> addrs[i] != addrs[j],
        forall|i: int| 0 <= i < addrs.len() ==> !seen.contains(#[trigger] addrs[i]),
    ensures
        new_discoveries(seen, addrs) == addrs.len(),
    decreases addrs.len(),
{
    if addrs.len() > 0 {
        let rest = addrs.skip(1);
        let seen1 = seen.insert(addrs[0]);
        assert(forall|i: int| 0 <= i < rest.len() ==> #[trigger] rest[i] == addrs[i + 1]);
        lemma_distinct_fresh_batch(seen1, rest);
    }
}

/// An address is reported as new exactly once per session: after any
/// observation of `a`, a second observation of `a` reports it as already
/// present, while the first observation after a reset reports it as new
/// again.
pub proof fn lemma_observe_exactly_once(
    pre: Set<IpAddress>,
    a: IpAddress,
    s1: Set<IpAddress>,
    n1: bool,
    s2: Set<IpAddress>,
    n2: bool,
    s3: Set<IpAddress>,
    n3: bool,
)
    requires
        observe_transition(pre, a, s1, n1),
        observe_transition(s1, a, s2, n2),
        observe_transition(Set::<IpAddress>::empty(), a, s3, n3),
    ensures
        n1 == !pre.contains(a),
        !n2,
        n3,
{
}

} // verus!
