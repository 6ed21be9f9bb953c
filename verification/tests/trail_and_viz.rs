use symbios_ground_lab::erosion_viz::ErosionVizState;
use symbios_ground_lab::flags::DirtyFlags;
use symbios_ground_lab::trail::{Trail, TRAIL_CAPACITY};

fn contents(t: &Trail<u32>) -> Vec<u32> {
    (0..t.len()).map(|i| *t.get(i)).collect()
}

#[test]
fn trail_keeps_the_most_recent_positions() {
    let mut t = Trail::new(0u32);
    for p in 1..=20u32 {
        t.push(p);
    }
    assert_eq!(t.len(), TRAIL_CAPACITY);
    assert_eq!(contents(&t), (5..=20).collect::<Vec<u32>>());
}

#[test]
fn short_trail_keeps_everything() {
    let mut t = Trail::new(7u32);
    t.push(8);
    t.push(9);
    assert_eq!(contents(&t), vec![7, 8, 9]);
}

#[test]
fn spawn_quota_respects_the_drop_budget() {
    let mut viz: ErosionVizState<u32> = ErosionVizState::with_default_rates();
    let mut dirty = DirtyFlags { terrain: false };
    viz.start(40);
    assert!(!viz.enabled());
    viz.begin();
    assert!(viz.enabled());
    assert_eq!(viz.begin_frame(), (32, 128));
    for d in 0..32 {
        viz.spawn(d);
    }
    assert_eq!(viz.end_frame(&mut dirty).spawned, 32);
    // Only 8 drops are left in the run.
    assert_eq!(viz.begin_frame(), (8, 32));
    for d in 32..40 {
        viz.spawn(d);
    }
    assert_eq!(viz.end_frame(&mut dirty).spawned, 8);
    assert_eq!(viz.begin_frame(), (0, 0));
    assert_eq!(viz.end_frame(&mut dirty).spawned, 0);
}

#[test]
fn stepping_retires_dead_droplets_in_order() {
    let mut viz: ErosionVizState<u32> = ErosionVizState::new(8, 4, 3);
    let mut dirty = DirtyFlags { terrain: false };
    viz.start(10);
    viz.begin();
    assert_eq!(viz.begin_frame(), (4, 16));
    for d in 0..4 {
        viz.spawn(d);
    }
    let drops = viz.take_active();
    assert_eq!(drops, vec![0, 1, 2, 3]);
    let stepped: Vec<(u32, bool)> = drops.into_iter().map(|d| (d + 100, d % 2 == 0)).collect();
    viz.return_stepped(stepped);
    assert_eq!(viz.active(), &vec![100, 102]);
    assert_eq!(viz.completed(), 2);
    let outcome = viz.end_frame(&mut dirty);
    assert_eq!(outcome.spawned, 4);
    // 2 completed + 2 active of 10: 6 may still be spawned, capped at 4.
    assert_eq!(viz.begin_frame(), (4, 16));
}

#[test]
fn snapshots_are_published_every_few_frames() {
    let mut viz: ErosionVizState<u32> = ErosionVizState::new(8, 4, 3);
    let mut dirty = DirtyFlags { terrain: true };
    viz.start(10);
    viz.begin();
    viz.begin_frame();
    viz.spawn(1);
    let first = viz.end_frame(&mut dirty);
    viz.begin_frame();
    let second = viz.end_frame(&mut dirty);
    viz.begin_frame();
    let third = viz.end_frame(&mut dirty);
    assert!(!first.publish && !second.publish && third.publish);
    assert_eq!((first.spawned, second.spawned, third.spawned), (1, 0, 0));
    assert!(!third.finished);
    assert!(viz.enabled());
    assert!(dirty.terrain);
}

#[test]
fn a_zero_snapshot_interval_publishes_every_frame() {
    let mut viz: ErosionVizState<u32> = ErosionVizState::new(8, 4, 0);
    let mut dirty = DirtyFlags { terrain: false };
    viz.start(10);
    viz.begin();
    for _ in 0..3 {
        viz.begin_frame();
        viz.spawn(1);
        assert!(viz.end_frame(&mut dirty).publish);
    }
}

#[test]
fn run_ends_when_every_drop_is_done() {
    let mut viz: ErosionVizState<u32> = ErosionVizState::new(8, 4, 100);
    let mut dirty = DirtyFlags { terrain: true };
    viz.start(2);
    viz.begin();
    assert_eq!(viz.begin_frame(), (2, 8));
    viz.spawn(1);
    viz.spawn(2);
    let drops = viz.take_active();
    viz.return_stepped(drops.into_iter().map(|d| (d, false)).collect());
    assert_eq!(viz.completed(), 2);
    let outcome = viz.end_frame(&mut dirty);
    assert!(outcome.finished && outcome.publish);
    assert_eq!(outcome.spawned, 2);
    assert!(!viz.enabled());
    assert!(!dirty.terrain);
}

#[test]
fn stop_keeps_droplets() {
    let mut viz: ErosionVizState<u32> = ErosionVizState::with_default_rates();
    viz.start(5);
    viz.begin();
    viz.begin_frame();
    viz.spawn(9);
    viz.stop();
    assert!(!viz.enabled());
    assert_eq!(viz.active(), &vec![9]);
    assert_eq!(viz.total(), 5);
    assert_eq!(viz.steps_per_frame(), 8);
}
