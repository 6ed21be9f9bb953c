use symbios_ground_lab::flags::{
    can_regenerate, can_visualise_erosion, finish_generation, start_generation, DirtyFlags,
    DirtyMesh, TerrainDebounce,
};
use symbios_ground_lab::generation::{
    grid_side, plan_base_generation, plan_generation, BaseGenerator, GenerationSettings,
    GeneratorKind, HydraulicPass, ThermalPass,
};

fn settings(kind: GeneratorKind) -> GenerationSettings {
    GenerationSettings {
        grid_size: 256,
        seed: 42,
        generator_kind: kind,
        octaves: 6,
        voronoi_num_seeds: 0,
        voronoi_num_terraces: 12,
        erosion_enabled: true,
        erosion_drops: 50_000,
        thermal_enabled: false,
        thermal_iterations: 50,
    }
}

#[test]
fn grid_side_is_at_least_two() {
    assert_eq!(grid_side(0), 2);
    assert_eq!(grid_side(1), 2);
    assert_eq!(grid_side(2), 2);
    assert_eq!(grid_side(2048), 2048);
}

#[test]
fn full_plan_runs_the_enabled_passes() {
    let p = plan_generation(&settings(GeneratorKind::FbmNoise), false);
    assert_eq!(p.size, 256);
    assert!(p.base == BaseGenerator::FbmNoise { seed: 42, octaves: 6 });
    assert!(!p.carve_roads);
    assert!(p.hydraulic == Some(HydraulicPass { seed: 42, num_drops: 50_000 }));
    assert!(p.thermal.is_none());

    let mut s = settings(GeneratorKind::DiamondSquare);
    s.erosion_enabled = false;
    s.thermal_enabled = true;
    let p = plan_generation(&s, true);
    assert!(p.base == BaseGenerator::DiamondSquare { seed: 42 });
    assert!(p.carve_roads);
    assert!(p.hydraulic.is_none());
    assert_eq!(p.thermal, Some(ThermalPass { iterations: 50, water_aware: true }));
}

#[test]
fn voronoi_counts_are_at_least_one() {
    let p = plan_generation(&settings(GeneratorKind::VoronoiTerracing), false);
    assert!(
        p.base
            == BaseGenerator::VoronoiTerracing {
                seed: 42,
                num_seeds: 1,
                num_terraces: 12
            }
    );
}

#[test]
fn base_plan_has_no_erosion() {
    let mut s = settings(GeneratorKind::FbmNoise);
    s.thermal_enabled = true;
    let base = plan_base_generation(&s, true);
    assert!(base.hydraulic.is_none());
    assert!(base.thermal.is_none());
    assert!(base.carve_roads);
    assert_eq!(base.size, 256);
}

#[test]
fn generation_starts_once_per_request() {
    let mut dirty = DirtyFlags::new();
    assert!(!start_generation(&mut dirty, false));
    dirty.terrain = true;
    assert!(!start_generation(&mut dirty, true), "a task is already in flight");
    assert!(dirty.terrain);
    assert!(start_generation(&mut dirty, false));
    assert!(!dirty.terrain);
    assert!(!start_generation(&mut dirty, false));
    let mut mesh = DirtyMesh(false);
    finish_generation(&mut mesh);
    assert!(mesh.0);
}

#[test]
fn debounce_holds_back_generation_until_the_timer_fires() {
    let mut dirty = DirtyFlags { terrain: true };
    let mut debounce = TerrainDebounce::new();
    debounce.trigger(&mut dirty);
    assert!(debounce.pending && !dirty.terrain);
    debounce.tick(&mut dirty, false);
    assert!(debounce.pending && !dirty.terrain);
    debounce.tick(&mut dirty, true);
    assert!(!debounce.pending && dirty.terrain);
    // A finished timer without a pending edit does nothing.
    dirty.terrain = false;
    debounce.tick(&mut dirty, true);
    assert!(!dirty.terrain);
}

#[test]
fn regenerate_button_cancels_the_countdown() {
    let mut dirty = DirtyFlags::new();
    let mut debounce = TerrainDebounce::new();
    debounce.trigger(&mut dirty);
    debounce.regenerate_now(&mut dirty);
    assert!(!debounce.pending && dirty.terrain);
}

#[test]
fn panel_buttons() {
    assert!(can_regenerate(false, false));
    assert!(!can_regenerate(true, false));
    assert!(!can_regenerate(false, true));
    assert!(can_visualise_erosion(false, false, true));
    assert!(!can_visualise_erosion(false, false, false));
    assert!(!can_visualise_erosion(true, false, true));
}
