use symbios_ground_lab::urban::{
    block_outline, building_count, building_seed, is_grammar_rule_line, mesh_has_geometry,
    plan_buildings, plan_road_meshes, visible_road_segments, ArchitectureMaterialState,
    RebuildPlan, RoadEdgeRef, RoadKind, RoadMaterialState, RoadSegment,
};

#[test]
fn only_active_edges_are_drawn() {
    let edges = [
        RoadEdgeRef { start: 0, end: 1, kind: RoadKind::Major, active: true },
        RoadEdgeRef { start: 1, end: 2, kind: RoadKind::Minor, active: false },
        RoadEdgeRef { start: 1, end: 3, kind: RoadKind::Minor, active: true },
        RoadEdgeRef { start: 9, end: 9, kind: RoadKind::Major, active: false },
    ];
    let segs = visible_road_segments(4, &edges);
    assert!(
        segs == vec![
            RoadSegment { start: 0, end: 1, kind: RoadKind::Major },
            RoadSegment { start: 1, end: 3, kind: RoadKind::Minor },
        ]
    );
}

#[test]
fn block_outline_closes_the_polygon() {
    assert_eq!(block_outline(&[4, 7, 9]), vec![(4, 7), (7, 9), (9, 4)]);
    assert_eq!(block_outline(&[1, 2, 3, 4]), vec![(1, 2), (2, 3), (3, 4), (4, 1)]);
    assert!(block_outline(&[1, 2]).is_empty());
    assert!(block_outline(&[]).is_empty());
}

#[test]
fn rebuild_decisions() {
    assert!(plan_road_meshes(false, false, true, true, true) == RebuildPlan::Keep);
    assert!(plan_road_meshes(true, false, true, true, true) == RebuildPlan::Rebuild);
    assert!(plan_road_meshes(false, true, true, false, true) == RebuildPlan::ClearOnly);
    assert!(plan_road_meshes(true, true, false, true, true) == RebuildPlan::ClearOnly);
    assert!(plan_road_meshes(true, true, true, true, false) == RebuildPlan::ClearOnly);
    assert!(plan_buildings(false, false, true, 3, true) == RebuildPlan::Keep);
    assert!(plan_buildings(true, false, true, 3, true) == RebuildPlan::Rebuild);
    assert!(plan_buildings(false, true, true, 0, true) == RebuildPlan::ClearOnly);
    assert!(plan_buildings(true, true, false, 3, true) == RebuildPlan::ClearOnly);
    assert!(plan_buildings(true, true, true, 3, false) == RebuildPlan::ClearOnly);
}

#[test]
fn buildings_are_capped_and_seeded() {
    assert_eq!(building_count(10, 1000), 10);
    assert_eq!(building_count(5000, 1000), 1000);
    assert_eq!(building_seed(0), 99);
    assert_eq!(building_seed(3), 3 * 12345 + 99);
}

#[test]
fn grammar_comments_and_blank_lines_are_skipped() {
    assert!(is_grammar_rule_line("Lot --> Split(X) { ~7: HouseMass | ~3: GarageMass }"));
    assert!(is_grammar_rule_line("/"));
    assert!(is_grammar_rule_line("/x"));
    assert!(!is_grammar_rule_line(""));
    assert!(!is_grammar_rule_line("// Massing"));
    assert!(!is_grammar_rule_line("//"));
}

#[test]
fn empty_meshes_are_not_spawned() {
    assert!(mesh_has_geometry(3, 3));
    assert!(!mesh_has_geometry(0, 3));
    assert!(!mesh_has_geometry(3, 0));
}

#[test]
fn road_texture_regeneration() {
    let mut s = RoadMaterialState::new();
    assert!(!s.poll(true, true, true));
    s.note_edit();
    assert!(!s.poll(false, true, true));
    assert!(s.texture_debounce_pending);
    assert!(s.poll(true, true, true));
    assert!(!s.textures_dirty && !s.texture_debounce_pending);
    // A request while roads are hidden is consumed without a respawn.
    s.textures_dirty = true;
    assert!(!s.poll(false, true, false));
    assert!(!s.textures_dirty);
}

#[test]
fn facade_texture_regeneration() {
    let mut s = ArchitectureMaterialState::new();
    assert!(!s.poll(true));
    s.note_edit();
    assert!(!s.poll(false));
    assert!(s.poll(true));
    assert!(!s.poll(true));
}
