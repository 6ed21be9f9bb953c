use symbios_ground_lab::material::{
    collect_layer_data, weight_map_bytes, LayerImage, MaterialState, MaterialStatus,
    SplatApplyPlan, TextureTaskPlan,
};

fn ready_state() -> MaterialState<&'static str> {
    let mut s: MaterialState<&'static str> = MaterialState::new();
    assert_eq!(s.plan_texture_tasks(false, true), TextureTaskPlan::Spawn);
    s.record_texture_tasks([10, 11, 12, 13]);
    for (i, e) in [10u64, 11, 12, 13].iter().enumerate() {
        assert!(s.accept_texture_result(*e, i, "albedo", "normal"));
    }
    s
}

#[test]
fn starts_dirty_and_idle() {
    let s: MaterialState<u8> = MaterialState::new();
    assert!(s.textures_dirty);
    assert!(!s.splat_dirty);
    assert!(s.status == MaterialStatus::Idle);
    assert!(!s.all_layers_ready());
    assert_eq!(s.layers_ready_count(), 0);
}

#[test]
fn disabled_materials_drop_the_request() {
    let mut s: MaterialState<u8> = MaterialState::new();
    s.status = MaterialStatus::GeneratingTextures;
    assert_eq!(s.plan_texture_tasks(false, false), TextureTaskPlan::Disabled);
    assert!(!s.textures_dirty);
    assert!(s.status == MaterialStatus::Idle);
    assert_eq!(s.plan_texture_tasks(false, true), TextureTaskPlan::Nothing);
}

#[test]
fn debounced_edit_fires_when_the_timer_runs_out() {
    let mut s: MaterialState<u8> = MaterialState::new();
    s.textures_dirty = false;
    s.note_panel_edits(false, true);
    assert!(s.texture_debounce_pending);
    assert_eq!(s.plan_texture_tasks(false, true), TextureTaskPlan::Nothing);
    assert!(s.texture_debounce_pending);
    assert_eq!(s.plan_texture_tasks(true, true), TextureTaskPlan::Spawn);
    assert!(!s.texture_debounce_pending);
    assert!(s.textures_dirty);
}

#[test]
fn rule_edits_rebuild_weights_at_once() {
    let mut s: MaterialState<u8> = MaterialState::new();
    s.note_panel_edits(true, false);
    assert!(s.splat_dirty);
    assert!(!s.texture_debounce_pending);
}

#[test]
fn stale_results_are_ignored() {
    let mut s: MaterialState<&'static str> = MaterialState::new();
    s.plan_texture_tasks(false, true);
    s.record_texture_tasks([1, 2, 3, 4]);
    assert!(s.status == MaterialStatus::GeneratingTextures);
    assert!(!s.accept_texture_result(99, 0, "old", "old"));
    assert!(s.layer_albedo[0].is_none());
    assert!(s.accept_texture_result(3, 2, "new", "new"));
    assert_eq!(s.layer_albedo[2], Some("new"));
    assert_eq!(s.layers_ready_count(), 1);
}

#[test]
fn complete_layers_trigger_the_weight_map() {
    let mut s = ready_state();
    assert!(s.all_layers_ready());
    assert_eq!(s.layers_ready_count(), 4);
    s.finish_collection();
    assert!(s.splat_dirty);
    assert!(s.status == MaterialStatus::Idle);
    assert_eq!(s.plan_splat_apply(true, true, true), SplatApplyPlan::Apply);
    let old = s.install_splat_textures("albedo_array", "normal_array", "weights");
    assert_eq!(old, (None, None, None));
    assert!(s.status == MaterialStatus::Ready);
    assert!(!s.splat_dirty);
    let old = {
        s.splat_dirty = true;
        s.install_splat_textures("a2", "n2", "w2")
    };
    assert_eq!(old, (Some("albedo_array"), Some("normal_array"), Some("weights")));
}

#[test]
fn splat_apply_waits_and_resets() {
    let mut s = ready_state();
    assert_eq!(s.plan_splat_apply(true, true, true), SplatApplyPlan::Wait);
    s.splat_dirty = true;
    assert_eq!(s.plan_splat_apply(false, true, true), SplatApplyPlan::Wait);
    assert_eq!(s.plan_splat_apply(true, true, false), SplatApplyPlan::Wait);
    assert_eq!(s.plan_splat_apply(true, false, true), SplatApplyPlan::ResetToPlain);
    assert!(!s.splat_dirty);
    assert!(s.status == MaterialStatus::Idle);
}

#[test]
fn heightmap_changes_mark_weights_dirty() {
    let mut s: MaterialState<u8> = MaterialState::new();
    s.note_heightmap_changed(true, false);
    assert!(!s.splat_dirty, "textures are being regenerated anyway");
    s.textures_dirty = false;
    s.note_heightmap_changed(true, true);
    assert!(!s.splat_dirty, "suppressed during the erosion visualisation");
    s.note_heightmap_changed(false, false);
    assert!(!s.splat_dirty);
    s.note_heightmap_changed(true, false);
    assert!(s.splat_dirty);
}

fn layer(byte: u8, len: usize) -> Option<LayerImage<char>> {
    Some(LayerImage {
        format: 'r',
        width: 2,
        height: 1,
        mip_level_count: 1,
        data: Some(vec![byte; len]),
    })
}

#[test]
fn layers_merge_in_layer_order() {
    let mut layers = [layer(1, 2), layer(2, 2), layer(3, 2), layer(4, 2)];
    layers[0].as_mut().unwrap().format = 'x';
    let merged = collect_layer_data(&layers).expect("all layers present");
    assert_eq!(merged.data, vec![1, 1, 2, 2, 3, 3, 4, 4]);
    assert_eq!(merged.format, 'x');
    assert_eq!((merged.width, merged.height, merged.mip_level_count), (2, 1, 1));
}

#[test]
fn missing_layer_data_aborts_the_merge() {
    let layers = [layer(1, 2), None, layer(3, 2), layer(4, 2)];
    assert!(collect_layer_data(&layers).is_none());
    let mut layers = [layer(1, 2), layer(2, 2), layer(3, 2), layer(4, 2)];
    layers[3].as_mut().unwrap().data = None;
    assert!(collect_layer_data(&layers).is_none());
}

#[test]
fn weight_map_bytes_are_rgba_row_major() {
    let pixels = [[255u8, 0, 0, 0], [1, 2, 3, 4], [0, 0, 255, 0]];
    assert_eq!(
        weight_map_bytes(&pixels),
        vec![255, 0, 0, 0, 1, 2, 3, 4, 0, 0, 255, 0]
    );
    assert!(weight_map_bytes(&[]).is_empty());
}
