//! The per-traversal set of already-visited addresses.  Membership is all
//! that matters; a fresh set is made for every top-level traversal and never
//! shared across calls.

use vstd::prelude::*;

verus! {

/// The addresses a traversal has already followed.
pub struct VisitedAddresses {
    addrs: Vec<u64>,
}

impl View for VisitedAddresses {
    type V = Set<u64>;

    closed spec fn view(&self) -> Set<u64> {
        Set::new(|a: u64| self.addrs@.contains(a))
    }
}

impl VisitedAddresses {
    /// A fresh, empty set.
    pub fn new() -> (r: VisitedAddresses)
        ensures
            r@ == Set::<u64>::empty(),
    {
        let r = VisitedAddresses { addrs: Vec::new() };
        proof {
            assert(r@ =~= Set::<u64>::empty());
        }
        r
    }

    /// Whether `a` has already been visited.
    pub fn contains(&self, a: u64) -> (r: bool)
        ensures
            r == self@.contains(a),
    {
        let n = self.addrs.len();
        let mut i: usize = 0;
        while i < n
            invariant
                n == self.addrs@.len(),
                i <= n,
                forall|k: int| 0 <= k < i ==> self.addrs@[k] != a,
            decreases n - i,
        {
            if self.addrs[i] == a {
                assert(self.addrs@.contains(a));
                return true;
            }
            i += 1;
        }
        assert(!self.addrs@.contains(a));
        false
    }

    /// Mark `a` as visited.
    pub fn insert(&mut self, a: u64)
        ensures
            final(self)@ == old(self)@.insert(a),
    {
        self.addrs.push(a);
        proof {
            let pre = old(self).addrs@;
            assert forall|x: u64| self.addrs@.contains(x) implies old(self)@.insert(a).contains(
                x,
            ) by {
                let i = choose|i: int| 0 <= i < self.addrs@.len() && self.addrs@[i] == x;
                if i < pre.len() {
                    assert(pre[i] == x);
                }
            }
            assert forall|x: u64| old(self)@.insert(a).contains(x) implies self.addrs@.contains(
                x,
            ) by {
                if pre.contains(x) {
                    let i = choose|i: int| 0 <= i < pre.len() && pre[i] == x;
                    assert(self.addrs@[i] == x);
                } else {
                    assert(self.addrs@[pre.len() as int] == a);
                }
            }
            assert(self@ =~= old(self)@.insert(a));
        }
    }
}

} // verus!
