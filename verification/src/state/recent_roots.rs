//! The bounded window of historical roots of an accumulator.

use vstd::prelude::*;
use crate::bytes::{array_eq, rows};

verus! {

/// How many former roots an accumulator remembers.
pub const RECENT_ROOTS_COUNT: usize = 30;

/// The window after `root` was put in front of `recent`: the newest entry
/// first, the oldest dropped once the window is full.
pub open spec fn remember(recent: Seq<Seq<u8>>, root: Seq<u8>) -> Seq<Seq<u8>> {
    if recent.len() < RECENT_ROOTS_COUNT {
        seq![root] + recent
    } else {
        seq![root] + recent.take(RECENT_ROOTS_COUNT - 1)
    }
}

/// A circular buffer of the last `RECENT_ROOTS_COUNT` roots.
///
/// Its view lists the remembered roots from the newest to the oldest.
pub struct RootRing {
    slots: [[u8; 32]; RECENT_ROOTS_COUNT],
    head: usize,
    len: usize,
}

impl View for RootRing {
    type V = Seq<Seq<u8>>;

    closed spec fn view(&self) -> Seq<Seq<u8>> {
        Seq::new(
            self.len as nat,
            |i: int| self.slots@[(self.head + i) % (RECENT_ROOTS_COUNT as int)]@,
        )
    }
}

impl RootRing {
    #[verifier::type_invariant]
    spec fn well_formed(self) -> bool {
        self.head < RECENT_ROOTS_COUNT && self.len <= RECENT_ROOTS_COUNT
    }

    /// A window that remembers nothing.
    pub fn new() -> (ring: Self)
        ensures
            ring@ == Seq::<Seq<u8>>::empty(),
    {
        let ring = RootRing { slots: [[0u8; 32]; RECENT_ROOTS_COUNT], head: 0, len: 0 };
        assert(ring@ =~= Seq::<Seq<u8>>::empty());
        ring
    }

    /// The number of roots remembered, never more than `RECENT_ROOTS_COUNT`.
    pub fn len(&self) -> (n: usize)
        ensures
            n == self@.len(),
            n <= RECENT_ROOTS_COUNT,
    {
        proof {
            use_type_invariant(self);
        }
        self.len
    }

    /// The root at position `i`, counted from the newest.
    pub fn get(&self, i: usize) -> (root: [u8; 32])
        requires
            i < self@.len(),
        ensures
            root@ == self@[i as int],
    {
        proof {
            use_type_invariant(self);
        }
        self.slots[(self.head + i) % RECENT_ROOTS_COUNT]
    }

    /// Put `root` in front of the window; the oldest root leaves a full
    /// window.
    pub fn push(&mut self, root: [u8; 32])
        ensures
            final(self)@ == remember(old(self)@, root@),
            final(self)@.contains(root@),
            final(self)@.len() <= RECENT_ROOTS_COUNT,
        no_unwind
    {
        proof {
            use_type_invariant(&*self);
        }
        let head: usize = if self.head == 0 {
            RECENT_ROOTS_COUNT - 1
        } else {
            self.head - 1
        };
        let len: usize = if self.len < RECENT_ROOTS_COUNT {
            self.len + 1
        } else {
            RECENT_ROOTS_COUNT
        };
        self.slots[head] = root;
        self.head = head;
        self.len = len;
        assert(self@ =~= remember(old(self)@, root@));
        assert(self@[0] == root@);
    }

    /// Whether `root` is one of the remembered roots.
    pub fn contains(&self, root: &[u8; 32]) -> (found: bool)
        ensures
            found == self@.contains(root@),
    {
        proof {
            use_type_invariant(self);
        }
        let mut i: usize = 0;
        while i < self.len
            invariant
                i <= self.len <= RECENT_ROOTS_COUNT,
                self.head < RECENT_ROOTS_COUNT,
                forall|j: int| 0 <= j < i ==> self@[j] != root@,
            decreases self.len - i,
        {
            if array_eq(&self.slots[(self.head + i) % RECENT_ROOTS_COUNT], root) {
                assert(self@[i as int] == root@);
                return true;
            }
            i += 1;
        }
        false
    }

    /// The window that holds the first `RECENT_ROOTS_COUNT` entries of
    /// `roots`, which lists roots from the newest to the oldest.
    pub fn from_slice(roots: &[[u8; 32]]) -> (ring: Self)
        ensures
            ring@ == rows(roots@).take(
                if roots@.len() < RECENT_ROOTS_COUNT {
                    roots@.len() as int
                } else {
                    RECENT_ROOTS_COUNT as int
                },
            ),
    {
        let count: usize = if roots.len() < RECENT_ROOTS_COUNT {
            roots.len()
        } else {
            RECENT_ROOTS_COUNT
        };
        let mut ring = RootRing::new();
        let ghost all = rows(roots@);
        let mut i: usize = count;
        while i > 0
            invariant
                i <= count <= RECENT_ROOTS_COUNT,
                count <= roots@.len(),
                all == rows(roots@),
                ring@ == all.subrange(i as int, count as int),
            decreases i,
        {
            i -= 1;
            ring.push(roots[i]);
            assert(ring@ =~= all.subrange(i as int, count as int));
        }
        assert(all.subrange(0, count as int) =~= all.take(count as int));
        ring
    }

    /// The remembered roots, from the newest to the oldest.
    pub fn to_vec(&self) -> (roots: Vec<[u8; 32]>)
        ensures
            rows(roots@) == self@,
            roots@.len() <= RECENT_ROOTS_COUNT,
    {
        let n = self.len();
        let mut roots: Vec<[u8; 32]> = Vec::new();
        let mut i: usize = 0;
        while i < n
            invariant
                i <= n,
                n == self@.len(),
                roots@.len() == i,
                forall|j: int| 0 <= j < i ==> roots@[j]@ == self@[j],
            decreases n - i,
        {
            roots.push(self.get(i));
            i += 1;
        }
        assert(rows(roots@) =~= self@);
        roots
    }
}

} // verus!
