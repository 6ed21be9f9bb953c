//! The fading trail drawn behind each erosion droplet: a bounded queue that
//! remembers the most recent positions, oldest first.
use std::collections::VecDeque;
use vstd::prelude::*;

verus! {

/// Most positions a trail remembers.
pub const TRAIL_CAPACITY: usize = 16;

/// The last `k` elements of `s` (all of `s` when it is shorter), in order.
pub open spec fn keep_last<T>(s: Seq<T>, k: nat) -> Seq<T> {
    if s.len() <= k {
        s
    } else {
        s.subrange(s.len() - k, s.len() as int)
    }
}

/// Recent positions of a droplet, oldest first, at most
/// [`TRAIL_CAPACITY`] of them.
#[derive(Clone)]
pub struct Trail<T> {
    points: VecDeque<T>,
}

impl<T> View for Trail<T> {
    type V = Seq<T>;

    closed spec fn view(&self) -> Seq<T> {
        self.points@
    }
}

impl<T> Trail<T> {
    /// A trail never holds more than [`TRAIL_CAPACITY`] positions.
    pub closed spec fn wf(&self) -> bool {
        self.points@.len() <= TRAIL_CAPACITY
    }

    /// A trail that starts at `start`.
    pub fn new(start: T) -> (t: Self)
        ensures
            t.wf(),
            t@ == seq![start],
    {
        let mut points = VecDeque::new();
        points.push_back(start);
        Trail { points }
    }

    /// Records a new position, forgetting the oldest one once the trail
    /// would exceed its capacity.
    pub fn push(&mut self, p: T)
        requires
            old(self).wf(),
        ensures
            final(self).wf(),
            final(self)@ == keep_last(old(self)@.push(p), TRAIL_CAPACITY as nat),
            final(self)@.len() == if old(self)@.len() < TRAIL_CAPACITY {
                old(self)@.len() + 1
            } else {
                TRAIL_CAPACITY as nat
            },
            final(self)@.last() == p,
            forall|i: int|
                0 <= i < final(self)@.len() - 1 ==> #[trigger] final(self)@[i] == old(self)@[i
                    + old(self)@.len() + 1 - final(self)@.len()],
    {
        self.points.push_back(p);
        if self.points.len() > TRAIL_CAPACITY {
            let _ = self.points.pop_front();
        }
    }

    /// Number of remembered positions.
    pub fn len(&self) -> (n: usize)
        ensures
            n == self@.len(),
    {
        self.points.len()
    }

    /// The `i`-th remembered position, counting from the oldest.
    pub fn get(&self, i: usize) -> (p: &T)
        requires
            i < self@.len(),
        ensures
            *p == self@[i as int],
    {
        &self.points[i]
    }
}

/// A trail is the recent end of the full path it was fed: if a trail holds
/// the last [`TRAIL_CAPACITY`] positions of `history`, then after pushing `p`
/// it holds the last [`TRAIL_CAPACITY`] positions of `history` followed by `p`.
pub proof fn lemma_trail_keeps_recent<T>(history: Seq<T>, p: T)
    ensures
        keep_last(keep_last(history, TRAIL_CAPACITY as nat).push(p), TRAIL_CAPACITY as nat)
            == keep_last(history.push(p), TRAIL_CAPACITY as nat),
{
    let k = TRAIL_CAPACITY as nat;
    let t = keep_last(history, k);
    if history.len() <= k {
        assert(t == history);
    } else {
        assert(t.push(p).len() == k + 1);
        assert(keep_last(t.push(p), k) =~= keep_last(history.push(p), k));
    }
}

} // verus!
