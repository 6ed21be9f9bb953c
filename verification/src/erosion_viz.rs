//! Bookkeeping of the real-time erosion visualisation.
//!
//! Each frame the visualisation spawns a few droplets, steps every active
//! droplet a few times, retires the ones that died, and periodically
//! publishes a heightmap snapshot.  The droplet physics works on real
//! numbers and is done by the caller; this state machine owns the droplet
//! list and the counters, and guarantees that no more droplets are ever
//! spawned than the configured drop count.
use crate::flags::DirtyFlags;
use vstd::prelude::*;

verus! {

/// The droplets of `stepped` that are still alive, in the order they were stepped.
pub open spec fn survivors<D>(stepped: Seq<(D, bool)>) -> Seq<D>
    decreases stepped.len(),
{
    if stepped.len() == 0 {
        Seq::empty()
    } else {
        let last = stepped.last();
        let rest = survivors(stepped.drop_last());
        if last.1 {
            rest.push(last.0)
        } else {
            rest
        }
    }
}

proof fn lemma_survivors_len<D>(stepped: Seq<(D, bool)>)
    ensures
        survivors(stepped).len() <= stepped.len(),
    decreases stepped.len(),
{
    if stepped.len() > 0 {
        lemma_survivors_len(stepped.drop_last());
    }
}

/// Whether a stepped entry's droplet is still alive.
pub open spec fn alive_entry<D>() -> spec_fn((D, bool)) -> bool {
    |p: (D, bool)| p.1
}

/// The droplet of a stepped entry.
pub open spec fn entry_droplet<D>() -> spec_fn((D, bool)) -> D {
    |p: (D, bool)| p.0
}

/// Stepping keeps exactly the live droplets, in batch order: the survivors
/// of a stepped batch are the droplets of the entries marked alive (the
/// batch filtered on liveness); every live entry's droplet survives; a
/// batch where all live survives whole, and one where all died leaves
/// nothing.
pub proof fn lemma_survivors_are_live_entries<D>(stepped: Seq<(D, bool)>)
    ensures
        survivors(stepped) == stepped.filter(alive_entry()).map_values(entry_droplet::<D>()),
        survivors(stepped).len() == stepped.filter(alive_entry()).len(),
        forall|i: int|
            0 <= i < stepped.len() && (#[trigger] stepped[i]).1 ==> survivors(stepped).contains(
                stepped[i].0,
            ),
        (forall|i: int| 0 <= i < stepped.len() ==> (#[trigger] stepped[i]).1) ==> survivors(
            stepped,
        ) == stepped.map_values(entry_droplet::<D>()),
        (forall|i: int| 0 <= i < stepped.len() ==> !(#[trigger] stepped[i]).1) ==> survivors(
            stepped,
        ).len() == 0,
    decreases stepped.len(),
{
    reveal(Seq::filter);
    let pred = alive_entry::<D>();
    let g = entry_droplet::<D>();
    if stepped.len() > 0 {
        let prefix = stepped.drop_last();
        let last = stepped.last();
        lemma_survivors_are_live_entries(prefix);
        let f = prefix.filter(pred);
        assert(stepped.filter(pred) == if pred(last) {
            f.push(last)
        } else {
            f
        });
        if last.1 {
            assert(f.push(last).map_values(g) =~= f.map_values(g).push(last.0));
        }
        assert forall|i: int| 0 <= i < stepped.len() && (#[trigger] stepped[i]).1 implies survivors(
            stepped,
        ).contains(stepped[i].0) by {
            if i == stepped.len() - 1 {
                assert(survivors(stepped)[survivors(stepped).len() - 1] == stepped[i].0);
            } else {
                assert(prefix[i] == stepped[i]);
                let k = choose|k: int|
                    0 <= k < survivors(prefix).len() && survivors(prefix)[k] == prefix[i].0;
                assert(survivors(stepped)[k] == stepped[i].0);
            }
        }
        if forall|i: int| 0 <= i < stepped.len() ==> (#[trigger] stepped[i]).1 {
            assert forall|i: int| 0 <= i < prefix.len() implies (#[trigger] prefix[i]).1 by {
                assert(prefix[i] == stepped[i]);
            }
            assert(stepped[stepped.len() - 1].1);
            assert(prefix.map_values(g).push(last.0) =~= stepped.map_values(g));
        }
        if forall|i: int| 0 <= i < stepped.len() ==> !(#[trigger] stepped[i]).1 {
            assert forall|i: int| 0 <= i < prefix.len() implies !(#[trigger] prefix[i]).1 by {
                assert(prefix[i] == stepped[i]);
            }
            assert(!stepped[stepped.len() - 1].1);
        }
    } else {
        assert(stepped.map_values(g) =~= Seq::<D>::empty());
    }
}

/// What the caller must do at the end of a visualisation frame.
pub struct FrameOutcome {
    /// Publish a snapshot of the working heightmap for meshing.
    pub publish: bool,
    /// Droplets spawned during the frame.
    pub spawned: u32,
    /// Every drop has been simulated: the visualisation just ended.
    pub finished: bool,
}

/// State of the step-by-step erosion visualisation, generic over the
/// droplet type `D`.
pub struct ErosionVizState<D> {
    enabled: bool,
    active: Vec<D>,
    in_flight: usize,
    completed: u32,
    total: u32,
    steps_per_frame: u32,
    drops_per_frame: u32,
    frame_counter: u32,
    publish_every_n_frames: u32,
    frame_quota: u32,
    frame_spawned: u32,
    frame_start_used: Ghost<nat>,
}

impl<D> ErosionVizState<D> {
    /// Whether the visualisation is running.
    pub closed spec fn spec_enabled(&self) -> bool {
        self.enabled
    }

    /// The droplets being stepped, in spawn order.
    pub closed spec fn spec_active(&self) -> Seq<D> {
        self.active@
    }

    /// Droplets handed to the caller for stepping and not yet returned.
    pub closed spec fn spec_in_flight(&self) -> nat {
        self.in_flight as nat
    }

    /// Drops that have finished.
    pub closed spec fn spec_completed(&self) -> nat {
        self.completed as nat
    }

    /// Drops to simulate in this run.
    pub closed spec fn spec_total(&self) -> nat {
        self.total as nat
    }

    /// Droplets spawned per frame at most.
    pub closed spec fn spec_drops_per_frame(&self) -> nat {
        self.drops_per_frame as nat
    }

    /// Simulation steps per droplet per frame.
    pub closed spec fn spec_steps_per_frame(&self) -> nat {
        self.steps_per_frame as nat
    }

    /// Frames between two published snapshots.
    pub closed spec fn spec_publish_every(&self) -> nat {
        self.publish_every_n_frames as nat
    }

    /// Frames since the last published snapshot.
    pub closed spec fn spec_frame_counter(&self) -> nat {
        self.frame_counter as nat
    }

    /// Droplets the current frame may spawn, fixed by [`Self::begin_frame`].
    pub closed spec fn spec_frame_quota(&self) -> nat {
        self.frame_quota as nat
    }

    /// Droplets spawned since the current frame began.
    pub closed spec fn spec_frame_spawned(&self) -> nat {
        self.frame_spawned as nat
    }

    /// Drops of the run that were finished, active or being stepped when
    /// the current frame began.
    pub closed spec fn spec_frame_start_used(&self) -> nat {
        self.frame_start_used@
    }

    /// Drops of the run finished, active or being stepped.
    pub open spec fn spec_used(&self) -> nat {
        self.spec_completed() + self.spec_active().len() + self.spec_in_flight()
    }

    /// Every drop spawned in a run is finished, active or being stepped,
    /// and their number never exceeds the run's drop count; within a frame,
    /// the droplets spawned so far stay within the frame's quota, which
    /// neither exceeds the per-frame rate nor the drops that were left when
    /// the frame began.
    pub open spec fn wf(&self) -> bool {
        &&& self.spec_used() <= self.spec_total()
        &&& self.spec_drops_per_frame() * 4 <= u32::MAX
        &&& (self.spec_frame_counter() < self.spec_publish_every() || self.spec_frame_counter()
            == 0)
        &&& self.spec_frame_spawned() <= self.spec_frame_quota()
        &&& self.spec_frame_quota() <= self.spec_drops_per_frame()
        &&& self.spec_frame_start_used() + self.spec_frame_quota() <= self.spec_total()
        &&& self.spec_used() == self.spec_frame_start_used() + self.spec_frame_spawned()
    }

    /// Drops that may still be spawned in this run.
    pub open spec fn spec_remaining(&self) -> nat {
        (self.spec_total() - self.spec_used()) as nat
    }

    /// Both states have the same rates.
    pub open spec fn same_rates(&self, other: &Self) -> bool {
        &&& self.spec_steps_per_frame() == other.spec_steps_per_frame()
        &&& self.spec_drops_per_frame() == other.spec_drops_per_frame()
        &&& self.spec_publish_every() == other.spec_publish_every()
    }

    /// A stopped visualisation with no drops, stepping `steps_per_frame`
    /// times and spawning up to `drops_per_frame` droplets per frame, and
    /// publishing a snapshot every `publish_every_n_frames` frames (every
    /// frame when that is 0 or 1).
    pub fn new(steps_per_frame: u32, drops_per_frame: u32, publish_every_n_frames: u32) -> (s:
        Self)
        requires
            drops_per_frame * 4 <= u32::MAX,
        ensures
            s.wf(),
            !s.spec_enabled(),
            s.spec_active().len() == 0,
            s.spec_in_flight() == 0,
            s.spec_completed() == 0,
            s.spec_total() == 0,
            s.spec_steps_per_frame() == steps_per_frame,
            s.spec_drops_per_frame() == drops_per_frame,
            s.spec_publish_every() == publish_every_n_frames,
            s.spec_frame_counter() == 0,
            s.spec_frame_spawned() == 0,
    {
        ErosionVizState {
            enabled: false,
            active: Vec::new(),
            in_flight: 0,
            completed: 0,
            total: 0,
            steps_per_frame,
            drops_per_frame,
            frame_counter: 0,
            publish_every_n_frames,
            frame_quota: 0,
            frame_spawned: 0,
            frame_start_used: Ghost(0),
        }
    }

    /// The usual settings: 8 steps and 32 new droplets per frame, a
    /// snapshot every 4 frames.
    pub fn with_default_rates() -> (s: Self)
        ensures
            s.wf(),
            !s.spec_enabled(),
            s.spec_active().len() == 0,
            s.spec_in_flight() == 0,
            s.spec_completed() == 0,
            s.spec_total() == 0,
            s.spec_steps_per_frame() == 8,
            s.spec_drops_per_frame() == 32,
            s.spec_publish_every() == 4,
            s.spec_frame_counter() == 0,
            s.spec_frame_spawned() == 0,
    {
        Self::new(8, 32, 4)
    }

    /// Prepares a new run of `total` drops while the base heightmap is
    /// generated; the run is not enabled yet.
    pub fn start(&mut self, total: u32)
        requires
            old(self).wf(),
        ensures
            final(self).wf(),
            !final(self).spec_enabled(),
            final(self).spec_active().len() == 0,
            final(self).spec_in_flight() == 0,
            final(self).spec_completed() == 0,
            final(self).spec_total() == total,
            final(self).spec_frame_spawned() == 0,
            final(self).same_rates(&*old(self)),
            final(self).spec_frame_counter() == old(self).spec_frame_counter(),
    {
        self.active = Vec::new();
        self.in_flight = 0;
        self.completed = 0;
        self.total = total;
        self.enabled = false;
        self.frame_quota = 0;
        self.frame_spawned = 0;
        self.frame_start_used = Ghost(0);
    }

    /// The base heightmap arrived: the run begins.
    pub fn begin(&mut self)
        requires
            old(self).wf(),
        ensures
            final(self).wf(),
            final(self).spec_enabled(),
            final(self).spec_active() == old(self).spec_active(),
            final(self).spec_in_flight() == old(self).spec_in_flight(),
            final(self).spec_completed() == old(self).spec_completed(),
            final(self).spec_total() == old(self).spec_total(),
            final(self).spec_frame_counter() == old(self).spec_frame_counter(),
            final(self).spec_frame_quota() == old(self).spec_frame_quota(),
            final(self).spec_frame_spawned() == old(self).spec_frame_spawned(),
            final(self).spec_frame_start_used() == old(self).spec_frame_start_used(),
            final(self).same_rates(&*old(self)),
    {
        self.enabled = true;
    }

    /// The Stop button: the run ends early, its droplets are kept as they are.
    pub fn stop(&mut self)
        requires
            old(self).wf(),
        ensures
            final(self).wf(),
            !final(self).spec_enabled(),
            final(self).spec_active() == old(self).spec_active(),
            final(self).spec_in_flight() == old(self).spec_in_flight(),
            final(self).spec_completed() == old(self).spec_completed(),
            final(self).spec_total() == old(self).spec_total(),
            final(self).spec_frame_counter() == old(self).spec_frame_counter(),
            final(self).spec_frame_quota() == old(self).spec_frame_quota(),
            final(self).spec_frame_spawned() == old(self).spec_frame_spawned(),
            final(self).spec_frame_start_used() == old(self).spec_frame_start_used(),
            final(self).same_rates(&*old(self)),
    {
        self.enabled = false;
    }

    /// Begins a frame and returns how many droplets it may spawn and how
    /// many spawn points to try at most (submerged points are skipped): the
    /// per-frame rate capped by the drops left in the run, and four tries
    /// per droplet.  That count becomes the frame's spawn quota.
    pub fn begin_frame(&mut self) -> (r: (u32, u32))
        requires
            old(self).wf(),
        ensures
            final(self).wf(),
            r.0 == if old(self).spec_drops_per_frame() < old(self).spec_remaining() {
                old(self).spec_drops_per_frame()
            } else {
                old(self).spec_remaining()
            },
            r.1 == r.0 * 4,
            final(self).spec_frame_quota() == r.0,
            final(self).spec_frame_spawned() == 0,
            final(self).spec_frame_start_used() == old(self).spec_used(),
            final(self).spec_enabled() == old(self).spec_enabled(),
            final(self).spec_active() == old(self).spec_active(),
            final(self).spec_in_flight() == old(self).spec_in_flight(),
            final(self).spec_completed() == old(self).spec_completed(),
            final(self).spec_total() == old(self).spec_total(),
            final(self).spec_frame_counter() == old(self).spec_frame_counter(),
            final(self).same_rates(&*old(self)),
    {
        let used: u64 = self.completed as u64 + self.active.len() as u64 + self.in_flight as u64;
        let remaining: u32 = (self.total as u64 - used) as u32;
        let to_spawn: u32 = if self.drops_per_frame < remaining {
            self.drops_per_frame
        } else {
            remaining
        };
        self.frame_quota = to_spawn;
        self.frame_spawned = 0;
        self.frame_start_used = Ghost(self.spec_used());
        (to_spawn, to_spawn * 4)
    }

    /// Adds a freshly spawned droplet; the frame's quota must not be used up.
    pub fn spawn(&mut self, droplet: D)
        requires
            old(self).wf(),
            old(self).spec_frame_spawned() < old(self).spec_frame_quota(),
        ensures
            final(self).wf(),
            final(self).spec_active() == old(self).spec_active().push(droplet),
            final(self).spec_remaining() == old(self).spec_remaining() - 1,
            final(self).spec_frame_spawned() == old(self).spec_frame_spawned() + 1,
            final(self).spec_frame_quota() == old(self).spec_frame_quota(),
            final(self).spec_frame_start_used() == old(self).spec_frame_start_used(),
            final(self).spec_enabled() == old(self).spec_enabled(),
            final(self).spec_in_flight() == old(self).spec_in_flight(),
            final(self).spec_completed() == old(self).spec_completed(),
            final(self).spec_total() == old(self).spec_total(),
            final(self).spec_frame_counter() == old(self).spec_frame_counter(),
            final(self).same_rates(&*old(self)),
    {
        self.active.push(droplet);
        self.frame_spawned = self.frame_spawned + 1;
    }

    /// Hands every active droplet to the caller for stepping.
    pub fn take_active(&mut self) -> (drops: Vec<D>)
        requires
            old(self).wf(),
            old(self).spec_in_flight() == 0,
        ensures
            final(self).wf(),
            drops@ == old(self).spec_active(),
            final(self).spec_active().len() == 0,
            final(self).spec_in_flight() == drops.len(),
            final(self).spec_remaining() == old(self).spec_remaining(),
            final(self).spec_enabled() == old(self).spec_enabled(),
            final(self).spec_completed() == old(self).spec_completed(),
            final(self).spec_total() == old(self).spec_total(),
            final(self).spec_frame_counter() == old(self).spec_frame_counter(),
            final(self).spec_frame_quota() == old(self).spec_frame_quota(),
            final(self).spec_frame_spawned() == old(self).spec_frame_spawned(),
            final(self).spec_frame_start_used() == old(self).spec_frame_start_used(),
            final(self).same_rates(&*old(self)),
    {
        let mut drops: Vec<D> = Vec::new();
        std::mem::swap(&mut drops, &mut self.active);
        self.in_flight = drops.len();
        drops
    }

    /// Takes back the droplets handed out by [`Self::take_active`], each
    /// with whether it is still alive: live droplets stay active in their
    /// order, dead ones count as completed.
    pub fn return_stepped(&mut self, stepped: Vec<(D, bool)>)
        requires
            old(self).wf(),
            stepped.len() == old(self).spec_in_flight(),
        ensures
            final(self).wf(),
            final(self).spec_active() == old(self).spec_active() + survivors(stepped@),
            final(self).spec_active() == old(self).spec_active() + stepped@.filter(
                alive_entry(),
            ).map_values(entry_droplet::<D>()),
            final(self).spec_in_flight() == 0,
            final(self).spec_completed() == old(self).spec_completed() + (stepped.len()
                - survivors(stepped@).len()),
            final(self).spec_completed() == old(self).spec_completed() + (stepped.len()
                - stepped@.filter(alive_entry()).len()),
            final(self).spec_remaining() == old(self).spec_remaining(),
            final(self).spec_enabled() == old(self).spec_enabled(),
            final(self).spec_total() == old(self).spec_total(),
            final(self).spec_frame_counter() == old(self).spec_frame_counter(),
            final(self).spec_frame_quota() == old(self).spec_frame_quota(),
            final(self).spec_frame_spawned() == old(self).spec_frame_spawned(),
            final(self).spec_frame_start_used() == old(self).spec_frame_start_used(),
            final(self).same_rates(&*old(self)),
    {
        let ghost start = self.active@;
        let ghost all = stepped@;
        let mut newly_completed: u32 = 0;
        let mut i: usize = 0;
        let mut rest = stepped;
        let ghost n = all.len();
        // Reverse the list, so that popping from it yields the droplets front to back.
        let mut remaining_rev: Vec<(D, bool)> = Vec::new();
        while rest.len() > 0
            invariant
                rest@.len() + remaining_rev@.len() == n,
                all == rest@ + remaining_rev@.reverse(),
            decreases rest@.len(),
        {
            let item = rest.pop().unwrap();
            let ghost before = remaining_rev@;
            remaining_rev.push(item);
            proof {
                assert(remaining_rev@.reverse() =~= seq![item] + before.reverse());
            }
            assert(all =~= rest@ + remaining_rev@.reverse());
        }
        assert(all =~= remaining_rev@.reverse());
        while remaining_rev.len() > 0
            invariant
                i <= n,
                all.len() == n,
                remaining_rev@.len() == n - i,
                remaining_rev@.reverse() == all.subrange(i as int, n as int),
                self.active@ == start + survivors(all.subrange(0, i as int)),
                newly_completed == i - survivors(all.subrange(0, i as int)).len(),
                self.completed == old(self).completed,
                self.total == old(self).total,
                self.in_flight == old(self).in_flight,
                self.enabled == old(self).enabled,
                self.drops_per_frame == old(self).drops_per_frame,
                self.publish_every_n_frames == old(self).publish_every_n_frames,
                self.frame_counter == old(self).frame_counter,
                self.steps_per_frame == old(self).steps_per_frame,
                self.frame_quota == old(self).frame_quota,
                self.frame_spawned == old(self).frame_spawned,
                self.frame_start_used == old(self).frame_start_used,
                old(self).wf(),
                n == old(self).in_flight,
                start == old(self).active@,
            decreases remaining_rev@.len(),
        {
            let ghost before_rev = remaining_rev@;
            let item = remaining_rev.pop().unwrap();
            proof {
                assert(item == before_rev[before_rev.len() - 1]);
                assert(before_rev.reverse()[0] == item);
                assert(all.subrange(i as int, n as int)[0] == all[i as int]);
                assert(all[i as int] == item);
                assert(all.subrange(0, (i + 1) as int).drop_last() =~= all.subrange(0, i as int));
                assert(all.subrange(0, (i + 1) as int).last() == item);
                lemma_survivors_len(all.subrange(0, i as int));
                assert forall|k: int| 0 <= k < remaining_rev@.len() implies remaining_rev@.reverse()[k]
                    == all.subrange((i + 1) as int, n as int)[k] by {
                    assert(remaining_rev@.reverse()[k] == remaining_rev@[remaining_rev@.len() - 1 - k]);
                    assert(before_rev.reverse()[k + 1] == before_rev[before_rev.len() - 1 - (k + 1)]);
                    assert(all.subrange(i as int, n as int)[k + 1] == all[i + k + 1]);
                }
                assert(remaining_rev@.reverse() =~= all.subrange((i + 1) as int, n as int));
            }
            let (drop, alive) = item;
            if alive {
                self.active.push(drop);
                assert(self.active@ =~= start + survivors(all.subrange(0, (i + 1) as int)));
            } else {
                proof {
                    lemma_survivors_len(all.subrange(0, (i + 1) as int));
                }
                newly_completed = newly_completed + 1;
            }
            i = i + 1;
        }
        proof {
            assert(all.subrange(0, n as int) =~= all);
            lemma_survivors_len(all);
            lemma_survivors_are_live_entries(all);
        }
        self.completed = self.completed + newly_completed;
        self.in_flight = 0;
    }

    /// Closes a frame: reports the droplets it spawned, counts it towards
    /// the next snapshot, publishes a snapshot every few frames and when the
    /// run completes, and ends the run (clearing the terrain request, since
    /// the visualised terrain is the result) once every drop has finished.
    /// The droplets spawned in the frame never exceed the per-frame rate nor
    /// the drops left when the frame began, and they are exactly the growth
    /// of the finished and active drops over the frame.
    pub fn end_frame(&mut self, dirty: &mut DirtyFlags) -> (r: FrameOutcome)
        requires
            old(self).wf(),
            old(self).spec_in_flight() == 0,
        ensures
            final(self).wf(),
            r.spawned == old(self).spec_frame_spawned(),
            r.spawned <= old(self).spec_drops_per_frame(),
            r.spawned <= old(self).spec_total() - old(self).spec_frame_start_used(),
            old(self).spec_completed() + old(self).spec_active().len() == old(
                self,
            ).spec_frame_start_used() + r.spawned,
            r.finished == (old(self).spec_completed() >= old(self).spec_total()
                && old(self).spec_active().len() == 0),
            r.publish == (old(self).spec_frame_counter() + 1 >= old(self).spec_publish_every()
                || r.finished),
            r.publish ==> final(self).spec_frame_counter() == 0,
            !r.publish ==> final(self).spec_frame_counter() == old(self).spec_frame_counter() + 1,
            r.finished ==> !final(self).spec_enabled() && !final(dirty).terrain,
            !r.finished ==> final(self).spec_enabled() == old(self).spec_enabled()
                && final(dirty).terrain == old(dirty).terrain,
            final(self).spec_active() == old(self).spec_active(),
            final(self).spec_in_flight() == 0,
            final(self).spec_completed() == old(self).spec_completed(),
            final(self).spec_total() == old(self).spec_total(),
            final(self).spec_frame_quota() == 0,
            final(self).spec_frame_spawned() == 0,
            final(self).spec_frame_start_used() == old(self).spec_used(),
            final(self).same_rates(&*old(self)),
    {
        let spawned = self.frame_spawned;
        self.frame_quota = 0;
        self.frame_spawned = 0;
        self.frame_start_used = Ghost(self.spec_used());
        self.frame_counter = self.frame_counter + 1;
        let finished = self.completed >= self.total && self.active.len() == 0;
        let publish = self.frame_counter >= self.publish_every_n_frames || finished;
        if publish {
            self.frame_counter = 0;
        }
        if finished {
            self.enabled = false;
            dirty.terrain = false;
        }
        FrameOutcome { publish, spawned, finished }
    }

    /// Whether the visualisation is running.
    pub fn enabled(&self) -> (r: bool)
        ensures
            r == self.spec_enabled(),
    {
        self.enabled
    }

    /// The droplets being stepped.
    pub fn active(&self) -> (r: &Vec<D>)
        ensures
            r@ == self.spec_active(),
    {
        &self.active
    }

    /// Drops finished so far.
    pub fn completed(&self) -> (r: u32)
        ensures
            r == self.spec_completed(),
    {
        self.completed
    }

    /// Drops to simulate in this run.
    pub fn total(&self) -> (r: u32)
        ensures
            r == self.spec_total(),
    {
        self.total
    }

    /// Simulation steps per droplet per frame.
    pub fn steps_per_frame(&self) -> (r: u32)
        ensures
            r == self.spec_steps_per_frame(),
    {
        self.steps_per_frame
    }
}

/// A run that has finished spent exactly its drop count: with no droplet
/// active or being stepped and at least `total` completions, the number of
/// completed drops is `total`.
pub proof fn lemma_finished_run_used_every_drop<D>(s: ErosionVizState<D>)
    requires
        s.wf(),
        s.spec_active().len() == 0,
        s.spec_in_flight() == 0,
        s.spec_completed() >= s.spec_total(),
    ensures
        s.spec_completed() == s.spec_total(),
        s.spec_remaining() == 0,
{
}

/// No frame spawns more droplets than the per-frame rate, nor more than
/// the drops that were left when it began, and the drops finished, active
/// or being stepped grew over the frame by exactly the droplets it spawned.
pub proof fn lemma_frame_spawn_bound<D>(s: ErosionVizState<D>)
    requires
        s.wf(),
    ensures
        s.spec_frame_spawned() <= s.spec_drops_per_frame(),
        s.spec_frame_spawned() <= s.spec_total() - s.spec_frame_start_used(),
        s.spec_used() == s.spec_frame_start_used() + s.spec_frame_spawned(),
        s.spec_used() >= s.spec_frame_start_used(),
{
}

/// Row-major index of sample `(x, z)` in a grid `w` samples wide.
pub open spec fn sample_index(w: nat, x: nat, z: nat) -> nat {
    z * w + x
}

/// Whether the grid cell with top-left sample `(ix, iz)` lies inside a
/// `w × h` heightmap, so that a droplet there can read and write all four
/// corners of its cell.
pub fn interior_cell(ix: usize, iz: usize, w: usize, h: usize) -> (r: bool)
    ensures
        r == (ix + 1 < w && iz + 1 < h),
{
    ix < w && w - ix > 1 && iz < h && h - iz > 1
}

/// Bilinear reads and writes stay inside the heightmap: for an interior
/// cell, the four corners `(ix, iz)`, `(ix + 1, iz)`, `(ix, iz + 1)` and
/// `(ix + 1, iz + 1)` are samples of the grid.
pub proof fn lemma_interior_cell_corners(ix: nat, iz: nat, w: nat, h: nat)
    requires
        ix + 1 < w,
        iz + 1 < h,
    ensures
        sample_index(w, ix, iz) < w * h,
        sample_index(w, ix + 1, iz) < w * h,
        sample_index(w, ix, iz + 1) < w * h,
        sample_index(w, ix + 1, iz + 1) < w * h,
{
    assert((iz + 1) * w + ix + 1 < w * h) by (nonlinear_arith)
        requires
            ix + 1 < w,
            iz + 1 < h,
    ;
    assert(iz * w + ix + 1 <= (iz + 1) * w + ix + 1) by (nonlinear_arith);
}

} // verus!
