//! Flags and small state machines that sequence terrain generation.
//!
//! Generation runs on a worker thread; the frame loop decides when to start
//! a task, when a debounced edit finally asks for one, and what the
//! Terraformer panel's buttons may do.  The timers and tasks themselves are
//! driven by the caller, which reports their events here.
use vstd::prelude::*;

verus! {

/// Signals that the terrain must be re-generated.
pub struct DirtyFlags {
    pub terrain: bool,
}

impl DirtyFlags {
    /// Nothing is dirty.
    pub fn new() -> (f: Self)
        ensures
            !f.terrain,
    {
        DirtyFlags { terrain: false }
    }
}

/// Signals that the terrain mesh needs to be rebuilt from the current heightmap.
pub struct DirtyMesh(pub bool);

/// Debounce state so that rapid UI edits do not spam generation; the
/// countdown itself is a timer owned by the caller.
pub struct TerrainDebounce {
    pub pending: bool,
}

impl TerrainDebounce {
    /// No edit is waiting.
    pub fn new() -> (d: Self)
        ensures
            !d.pending,
    {
        TerrainDebounce { pending: false }
    }

    /// An edit was made: (re)start the countdown and hold back any
    /// generation that was already requested, so that only the settled
    /// parameters are generated.  The caller resets its timer.
    pub fn trigger(&mut self, dirty: &mut DirtyFlags)
        ensures
            final(self).pending,
            !final(dirty).terrain,
    {
        self.pending = true;
        dirty.terrain = false;
    }

    /// Advances the countdown.  `timer_finished` reports whether the
    /// caller's timer, ticked this frame because an edit is pending, has
    /// run out.  When it has, the pending edit turns into a generation
    /// request.
    pub fn tick(&mut self, dirty: &mut DirtyFlags, timer_finished: bool)
        ensures
            old(self).pending && timer_finished ==> !final(self).pending && final(dirty).terrain,
            !(old(self).pending && timer_finished) ==> final(self).pending == old(self).pending
                && final(dirty).terrain == old(dirty).terrain,
    {
        if self.pending && timer_finished {
            dirty.terrain = true;
            self.pending = false;
        }
    }

    /// The Regenerate button: generate now and drop any pending countdown.
    pub fn regenerate_now(&mut self, dirty: &mut DirtyFlags)
        ensures
            !final(self).pending,
            final(dirty).terrain,
    {
        dirty.terrain = true;
        self.pending = false;
    }
}

/// Decides whether a generation task is spawned this frame: only when the
/// terrain is dirty and no task is already in flight, in which case the
/// request is consumed.
pub fn start_generation(dirty: &mut DirtyFlags, task_in_flight: bool) -> (start: bool)
    ensures
        start == (old(dirty).terrain && !task_in_flight),
        final(dirty).terrain == (old(dirty).terrain && !start),
{
    if !dirty.terrain || task_in_flight {
        return false;
    }
    dirty.terrain = false;
    true
}

/// A finished generation task publishes its heightmap: the mesh must be
/// rebuilt.
pub fn finish_generation(dirty_mesh: &mut DirtyMesh)
    ensures
        final(dirty_mesh).0,
{
    dirty_mesh.0 = true;
}

/// The Regenerate button is usable when no generation task and no erosion
/// visualisation is running.
pub fn can_regenerate(is_generating: bool, viz_active: bool) -> (r: bool)
    ensures
        r == (!is_generating && !viz_active),
{
    !is_generating && !viz_active
}

/// The Visualise Erosion button is usable when nothing else runs and
/// hydraulic erosion is enabled.
pub fn can_visualise_erosion(is_generating: bool, viz_active: bool, erosion_enabled: bool) -> (r:
    bool)
    ensures
        r == (!is_generating && !viz_active && erosion_enabled),
{
    !is_generating && !viz_active && erosion_enabled
}

} // verus!
