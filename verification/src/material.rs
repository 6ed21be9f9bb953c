//! The splat-material pipeline: procedural textures for the four terrain
//! layers (grass, dirt, rock, snow) are generated asynchronously, collected
//! as they complete, merged into texture arrays, and bound together with a
//! per-cell weight map.
//!
//! [`MaterialState`] tracks that pipeline.  It is generic over the handle
//! type `H` the renderer uses for images; entities that carry texture
//! tasks are identified by their `u64` bits.
use vstd::prelude::*;

verus! {

/// Number of splat layers (R, G, B, A channels).
pub const LAYER_COUNT: usize = 4;

/// Display state for the material pipeline, shown in the Materials panel.
#[derive(Debug, PartialEq, Eq, Structural, Clone, Copy)]
pub enum MaterialStatus {
    /// No pipeline activity.
    Idle,
    /// Async texture tasks are in flight.
    GeneratingTextures,
    /// All four layers are generated and the splat material is applied.
    Ready,
}

/// What the texture-task system must do this frame.
#[derive(Debug, PartialEq, Eq, Structural, Clone, Copy)]
pub enum TextureTaskPlan {
    /// Nothing to do.
    Nothing,
    /// Splat materials are disabled: the request was dropped.
    Disabled,
    /// Cancel lingering tasks and spawn the four layer tasks, then report
    /// their entities with [`MaterialState::record_texture_tasks`].
    Spawn,
}

/// What the splat-apply system must do this frame.
#[derive(Debug, PartialEq, Eq, Structural, Clone, Copy)]
pub enum SplatApplyPlan {
    /// Nothing to do (not dirty, no material, layers or heightmap missing).
    Wait,
    /// Splat materials are disabled: reset the terrain material to its
    /// plain colour.
    ResetToPlain,
    /// Build the texture arrays and the weight map and bind them, then
    /// report the new images with [`MaterialState::install_splat_textures`].
    Apply,
}

/// Progress of the async texture generation → GPU upload pipeline.
pub struct MaterialState<H> {
    /// Albedo image of each layer, filled as the async tasks complete.
    pub layer_albedo: [Option<H>; 4],
    /// Normal map of each layer.
    pub layer_normal: [Option<H>; 4],
    /// Splat weight map currently bound to the terrain material.
    pub weight_map: Option<H>,
    /// 4-layer albedo texture array currently bound.
    pub albedo_array: Option<H>,
    /// 4-layer normal texture array currently bound.
    pub normal_array: Option<H>,
    /// Procedural texture parameters changed: textures must be regenerated.
    pub textures_dirty: bool,
    /// Only the splat weights (or uniforms) need rebuilding.
    pub splat_dirty: bool,
    /// A texture-parameter edit is waiting for its debounce timer.
    pub texture_debounce_pending: bool,
    /// Display status.
    pub status: MaterialStatus,
    /// Entities of the four texture tasks of the current generation.
    pub current_texture_entities: Option<[u64; 4]>,
}

/// Every layer has both its albedo and its normal map.
pub open spec fn layers_ready<H>(albedo: [Option<H>; 4], normal: [Option<H>; 4]) -> bool {
    forall|i: int| 0 <= i < 4 ==> albedo[i] is Some && normal[i] is Some
}

/// Whether a layer image has arrived.
pub open spec fn present<H>() -> spec_fn(Option<H>) -> bool {
    |h: Option<H>| h is Some
}

/// Filtering keeps every element exactly when all of them pass.
proof fn lemma_filter_keeps_all<A>(s: Seq<A>, p: spec_fn(A) -> bool)
    ensures
        (s.filter(p).len() == s.len()) <==> (forall|i: int| 0 <= i < s.len() ==> p(#[trigger] s[i])),
    decreases s.len(),
{
    reveal(Seq::filter);
    if s.len() > 0 {
        let prefix = s.drop_last();
        lemma_filter_keeps_all(prefix, p);
        prefix.lemma_filter_len(p);
        if forall|i: int| 0 <= i < s.len() ==> p(#[trigger] s[i]) {
            assert(p(s[s.len() - 1]));
            assert forall|i: int| 0 <= i < prefix.len() implies p(#[trigger] prefix[i]) by {
                assert(prefix[i] == s[i]);
            }
        }
        if s.filter(p).len() == s.len() {
            assert(p(s.last()));
            assert forall|i: int| 0 <= i < s.len() implies p(#[trigger] s[i]) by {
                if i < s.len() - 1 {
                    assert(prefix[i] == s[i]);
                }
            }
        }
    }
}

/// The weight map may be built only once all four layers are in: the
/// layers are ready exactly when every one of the [`LAYER_COUNT`] albedo
/// images and every normal map has arrived (the arrived counts are both
/// four), so any layer still missing, the last one included, keeps them
/// from being ready.
pub proof fn lemma_layers_ready_iff_all_arrived<H>(albedo: [Option<H>; 4], normal: [Option<H>; 4])
    ensures
        layers_ready(albedo, normal) <==> (albedo@.filter(present()).len() == LAYER_COUNT
            && normal@.filter(present()).len() == LAYER_COUNT),
        forall|i: int|
            0 <= i < LAYER_COUNT && (albedo[i] is None || normal[i] is None) ==> !layers_ready(
                albedo,
                normal,
            ),
{
    lemma_filter_keeps_all(albedo@, present::<H>());
    lemma_filter_keeps_all(normal@, present::<H>());
    assert(albedo@.len() == 4 && normal@.len() == 4);
}

/// `entity` is one of the four task entities of the current generation.
pub open spec fn is_current_task(current: Option<[u64; 4]>, entity: u64) -> bool {
    match current {
        Some(ids) => exists|i: int| 0 <= i < 4 && ids[i] == entity,
        None => false,
    }
}

impl<H> MaterialState<H> {
    /// The state at startup: no layers, nothing bound, and textures dirty so
    /// that they are generated on the first frame.
    pub fn new() -> (s: Self)
        ensures
            s.layer_albedo@ == seq![None::<H>, None, None, None],
            s.layer_normal@ == seq![None::<H>, None, None, None],
            s.weight_map is None,
            s.albedo_array is None,
            s.normal_array is None,
            s.textures_dirty,
            !s.splat_dirty,
            !s.texture_debounce_pending,
            s.status == MaterialStatus::Idle,
            s.current_texture_entities is None,
    {
        MaterialState {
            layer_albedo: [None, None, None, None],
            layer_normal: [None, None, None, None],
            weight_map: None,
            albedo_array: None,
            normal_array: None,
            textures_dirty: true,
            splat_dirty: false,
            texture_debounce_pending: false,
            status: MaterialStatus::Idle,
            current_texture_entities: None,
        }
    }

    /// Returns `true` when every layer has both an albedo and a normal-map
    /// handle available — i.e. all four async texture tasks have completed.
    pub fn all_layers_ready(&self) -> (r: bool)
        ensures
            r == layers_ready(self.layer_albedo, self.layer_normal),
            r == (forall|i: int|
                0 <= i < LAYER_COUNT ==> self.layer_albedo[i] is Some
                    && self.layer_normal[i] is Some),
            r == (self.layer_albedo@.filter(present()).len() == LAYER_COUNT
                && self.layer_normal@.filter(present()).len() == LAYER_COUNT),
    {
        proof {
            lemma_layers_ready_iff_all_arrived(self.layer_albedo, self.layer_normal);
        }
        let mut i: usize = 0;
        while i < LAYER_COUNT
            invariant
                i <= 4,
                forall|j: int|
                    0 <= j < i ==> self.layer_albedo[j] is Some && self.layer_normal[j] is Some,
            decreases 4 - i,
        {
            if self.layer_albedo[i].is_none() || self.layer_normal[i].is_none() {
                proof {
                    lemma_layers_ready_iff_all_arrived(self.layer_albedo, self.layer_normal);
                }
                return false;
            }
            i = i + 1;
        }
        true
    }

    /// Number of layers whose albedo has arrived (shown by the panel).
    pub fn layers_ready_count(&self) -> (n: usize)
        ensures
            n <= 4,
            n == self.layer_albedo@.filter(present()).len(),
    {
        let ghost s = self.layer_albedo@;
        let mut n: usize = 0;
        let mut i: usize = 0;
        while i < LAYER_COUNT
            invariant
                i <= 4,
                s == self.layer_albedo@,
                s.len() == 4,
                n == s.subrange(0, i as int).filter(present()).len(),
                n <= i,
            decreases 4 - i,
        {
            proof {
                reveal(Seq::filter);
                assert(s.subrange(0, (i + 1) as int).drop_last() =~= s.subrange(0, i as int));
            }
            if self.layer_albedo[i].is_some() {
                n = n + 1;
            }
            i = i + 1;
        }
        assert(s.subrange(0, 4) =~= s);
        n
    }

    /// A new heightmap was published: the splat weights must follow, unless
    /// textures are being regenerated anyway or the erosion visualisation is
    /// running (its snapshots would rebuild the weights every few frames).
    pub fn note_heightmap_changed(&mut self, heightmap_present: bool, viz_enabled: bool)
        ensures
            *final(self) == (MaterialState {
                splat_dirty: final(self).splat_dirty,
                ..*old(self)
            }),
            final(self).splat_dirty == (old(self).splat_dirty || (heightmap_present
                && !old(self).textures_dirty && !viz_enabled)),
    {
        if heightmap_present && !self.textures_dirty && !viz_enabled {
            self.splat_dirty = true;
        }
    }

    /// The Materials panel reports its edits: splat-rule edits rebuild the
    /// weight map at once, texture edits (re)start the debounce countdown
    /// (the caller resets its timer).
    pub fn note_panel_edits(&mut self, rules_changed: bool, texture_changed: bool)
        ensures
            *final(self) == (MaterialState {
                splat_dirty: final(self).splat_dirty,
                texture_debounce_pending: final(self).texture_debounce_pending,
                ..*old(self)
            }),
            final(self).splat_dirty == (old(self).splat_dirty || rules_changed),
            final(self).texture_debounce_pending == (old(self).texture_debounce_pending
                || texture_changed),
    {
        if rules_changed {
            self.splat_dirty = true;
        }
        if texture_changed {
            self.texture_debounce_pending = true;
        }
    }

    /// Decides the texture-task step.  `timer_finished` reports whether the
    /// debounce timer, ticked this frame because an edit is pending, has
    /// run out; that turns the pending edit into a regeneration request.
    /// A request is dropped (status back to idle) while splat materials are
    /// disabled, and otherwise asks for the four tasks to be spawned.
    pub fn plan_texture_tasks(&mut self, timer_finished: bool, enabled: bool) -> (plan:
        TextureTaskPlan)
        ensures
            *final(self) == (MaterialState {
                texture_debounce_pending: final(self).texture_debounce_pending,
                textures_dirty: final(self).textures_dirty,
                status: final(self).status,
                ..*old(self)
            }),
            ({
                let fired = old(self).texture_debounce_pending && timer_finished;
                let requested = old(self).textures_dirty || fired;
                &&& final(self).texture_debounce_pending == (old(self).texture_debounce_pending
                    && !timer_finished)
                &&& plan == if !requested {
                    TextureTaskPlan::Nothing
                } else if !enabled {
                    TextureTaskPlan::Disabled
                } else {
                    TextureTaskPlan::Spawn
                }
                &&& final(self).textures_dirty == (requested && enabled)
                &&& final(self).status == if plan == TextureTaskPlan::Disabled {
                    MaterialStatus::Idle
                } else {
                    old(self).status
                }
            }),
    {
        if self.texture_debounce_pending && timer_finished {
            self.texture_debounce_pending = false;
            self.textures_dirty = true;
        }
        if !self.textures_dirty {
            return TextureTaskPlan::Nothing;
        }
        if !enabled {
            self.textures_dirty = false;
            self.status = MaterialStatus::Idle;
            return TextureTaskPlan::Disabled;
        }
        TextureTaskPlan::Spawn
    }

    /// The four layer tasks were spawned with these entities: forget the old
    /// layers and wait for the new ones.
    pub fn record_texture_tasks(&mut self, entities: [u64; 4])
        ensures
            *final(self) == (MaterialState {
                layer_albedo: final(self).layer_albedo,
                layer_normal: final(self).layer_normal,
                status: final(self).status,
                current_texture_entities: final(self).current_texture_entities,
                textures_dirty: final(self).textures_dirty,
                ..*old(self)
            }),
            final(self).layer_albedo@ == seq![None::<H>, None, None, None],
            final(self).layer_normal@ == seq![None::<H>, None, None, None],
            final(self).status == MaterialStatus::GeneratingTextures,
            final(self).current_texture_entities == Some(entities),
            !final(self).textures_dirty,
    {
        self.layer_albedo = [None, None, None, None];
        self.layer_normal = [None, None, None, None];
        self.status = MaterialStatus::GeneratingTextures;
        self.current_texture_entities = Some(entities);
        self.textures_dirty = false;
    }

    /// A texture task finished.  Its images are stored for its layer only if
    /// the task belongs to the current generation; a result of an earlier,
    /// cancelled generation changes nothing.  Returns whether the result
    /// was taken (the caller then despawns the task entity).
    pub fn accept_texture_result(&mut self, entity: u64, layer: usize, albedo: H, normal: H) -> (
        accepted: bool)
        requires
            layer < 4,
        ensures
            *final(self) == (MaterialState {
                layer_albedo: final(self).layer_albedo,
                layer_normal: final(self).layer_normal,
                ..*old(self)
            }),
            accepted == is_current_task(old(self).current_texture_entities, entity),
            accepted ==> final(self).layer_albedo@ == old(self).layer_albedo@.update(
                layer as int,
                Some(albedo),
            ) && final(self).layer_normal@ == old(self).layer_normal@.update(
                layer as int,
                Some(normal),
            ),
            !accepted ==> final(self).layer_albedo == old(self).layer_albedo
                && final(self).layer_normal == old(self).layer_normal,
    {
        let current = match self.current_texture_entities {
            Some(ids) => ids,
            None => {
                return false;
            },
        };
        let mut i: usize = 0;
        let mut found = false;
        while i < 4
            invariant
                i <= 4,
                found == exists|j: int| 0 <= j < i && current[j] == entity,
            decreases 4 - i,
        {
            if current[i] == entity {
                found = true;
            }
            i = i + 1;
        }
        if !found {
            return false;
        }
        self.layer_albedo[layer] = Some(albedo);
        self.layer_normal[layer] = Some(normal);
        true
    }

    /// After the results of a frame were collected: once every layer is in
    /// while textures were generating, the weight map must be rebuilt.
    pub fn finish_collection(&mut self)
        ensures
            *final(self) == (MaterialState {
                splat_dirty: final(self).splat_dirty,
                status: final(self).status,
                ..*old(self)
            }),
            ({
                let done = layers_ready(old(self).layer_albedo, old(self).layer_normal)
                    && old(self).status == MaterialStatus::GeneratingTextures;
                &&& final(self).splat_dirty == (old(self).splat_dirty || done)
                &&& final(self).status == if done {
                    MaterialStatus::Idle
                } else {
                    old(self).status
                }
            }),
    {
        if self.all_layers_ready() && self.status == MaterialStatus::GeneratingTextures {
            self.splat_dirty = true;
            self.status = MaterialStatus::Idle;
        }
    }

    /// Decides the splat-apply step.  When splat materials are disabled the
    /// request is consumed and the status goes back to idle.
    pub fn plan_splat_apply(&mut self, has_material: bool, enabled: bool, has_heightmap: bool) -> (
        plan: SplatApplyPlan)
        ensures
            *final(self) == (MaterialState {
                splat_dirty: final(self).splat_dirty,
                status: final(self).status,
                ..*old(self)
            }),
            plan == if !old(self).splat_dirty || !has_material {
                SplatApplyPlan::Wait
            } else if !enabled {
                SplatApplyPlan::ResetToPlain
            } else if !layers_ready(old(self).layer_albedo, old(self).layer_normal)
                || !has_heightmap {
                SplatApplyPlan::Wait
            } else {
                SplatApplyPlan::Apply
            },
            plan == SplatApplyPlan::ResetToPlain ==> !final(self).splat_dirty && final(self).status
                == MaterialStatus::Idle,
            plan != SplatApplyPlan::ResetToPlain ==> final(self).splat_dirty
                == old(self).splat_dirty && final(self).status == old(self).status,
    {
        if !self.splat_dirty || !has_material {
            return SplatApplyPlan::Wait;
        }
        if !enabled {
            self.splat_dirty = false;
            self.status = MaterialStatus::Idle;
            return SplatApplyPlan::ResetToPlain;
        }
        if !self.all_layers_ready() || !has_heightmap {
            return SplatApplyPlan::Wait;
        }
        SplatApplyPlan::Apply
    }

    /// The new texture arrays and weight map are bound: record them, hand
    /// back the previous ones (to be freed), and mark the material ready.
    pub fn install_splat_textures(&mut self, albedo_array: H, normal_array: H, weight_map: H) -> (
        previous: (Option<H>, Option<H>, Option<H>))
        ensures
            *final(self) == (MaterialState {
                albedo_array: final(self).albedo_array,
                normal_array: final(self).normal_array,
                weight_map: final(self).weight_map,
                splat_dirty: final(self).splat_dirty,
                status: final(self).status,
                ..*old(self)
            }),
            previous == (old(self).albedo_array, old(self).normal_array, old(self).weight_map),
            final(self).albedo_array == Some(albedo_array),
            final(self).normal_array == Some(normal_array),
            final(self).weight_map == Some(weight_map),
            !final(self).splat_dirty,
            final(self).status == MaterialStatus::Ready,
    {
        let mut old_albedo = Some(albedo_array);
        let mut old_normal = Some(normal_array);
        let mut old_weight = Some(weight_map);
        std::mem::swap(&mut old_albedo, &mut self.albedo_array);
        std::mem::swap(&mut old_normal, &mut self.normal_array);
        std::mem::swap(&mut old_weight, &mut self.weight_map);
        self.splat_dirty = false;
        self.status = MaterialStatus::Ready;
        (old_albedo, old_normal, old_weight)
    }
}

/// One layer image as the texture arrays see it: pixel format, size, mip
/// count and the CPU-side bytes (all mips), which may be absent.
pub struct LayerImage<F> {
    pub format: F,
    pub width: u32,
    pub height: u32,
    pub mip_level_count: u32,
    pub data: Option<Vec<u8>>,
}

/// Four layer images merged into one 2D-array texture, layer-major.
pub struct MergedLayers<F> {
    pub data: Vec<u8>,
    pub format: F,
    pub width: u32,
    pub height: u32,
    pub mip_level_count: u32,
}

/// Every layer image is there and has its bytes.
pub open spec fn layers_complete<F>(layers: [Option<LayerImage<F>>; 4]) -> bool {
    forall|i: int| 0 <= i < 4 ==> layers[i] is Some && layers[i]->Some_0.data is Some
}

/// The bytes of layer `i`.
pub open spec fn layer_bytes<F>(layers: [Option<LayerImage<F>>; 4], i: int) -> Seq<u8> {
    layers[i]->Some_0.data->Some_0@
}

/// The layer bytes of the first `n` layers, concatenated in layer order.
pub open spec fn concat_layers<F>(layers: [Option<LayerImage<F>>; 4], n: nat) -> Seq<u8>
    decreases n,
{
    if n == 0 {
        Seq::empty()
    } else {
        concat_layers(layers, (n - 1) as nat) + layer_bytes(layers, n - 1)
    }
}

/// Concatenates the pixel data of four layer images into one buffer in
/// layer-major order, as a 2D-array texture expects (each layer already
/// holds its full mip chain).  Format, size and mip count are those of the
/// first layer.  Returns `None` when an image or its CPU-side data is
/// missing.
pub fn collect_layer_data<F: Copy>(layers: &[Option<LayerImage<F>>; 4]) -> (r: Option<
    MergedLayers<F>,
>)
    ensures
        r is Some <==> layers_complete(*layers),
        r matches Some(m) ==> {
            &&& m.data@ == concat_layers(*layers, 4)
            &&& m.format == layers[0]->Some_0.format
            &&& m.width == layers[0]->Some_0.width
            &&& m.height == layers[0]->Some_0.height
            &&& m.mip_level_count == layers[0]->Some_0.mip_level_count
        },
{
    let mut merged: Vec<u8> = Vec::new();
    let mut i: usize = 0;
    while i < LAYER_COUNT
        invariant
            i <= 4,
            forall|j: int| 0 <= j < i ==> layers[j] is Some && layers[j]->Some_0.data is Some,
            merged@ == concat_layers(*layers, i as nat),
        decreases 4 - i,
    {
        match &layers[i] {
            Some(img) => match &img.data {
                Some(bytes) => {
                    let ghost before = merged@;
                    let mut k: usize = 0;
                    while k < bytes.len()
                        invariant
                            k <= bytes@.len(),
                            merged@ == before + bytes@.subrange(0, k as int),
                        decreases bytes@.len() - k,
                    {
                        merged.push(bytes[k]);
                        assert(bytes@.subrange(0, (k + 1) as int) =~= bytes@.subrange(
                            0,
                            k as int,
                        ).push(bytes@[k as int]));
                        k = k + 1;
                    }
                    assert(bytes@.subrange(0, bytes@.len() as int) =~= bytes@);
                },
                None => {
                    return None;
                },
            },
            None => {
                return None;
            },
        }
        i = i + 1;
    }
    match &layers[0] {
        Some(first) => Some(
            MergedLayers {
                data: merged,
                format: first.format,
                width: first.width,
                height: first.height,
                mip_level_count: first.mip_level_count,
            },
        ),
        None => None,
    }
}

/// Row-major RGBA weight pixels laid out as bytes: pixel `i`, channel `k`
/// lands at byte `4 * i + k`.
pub open spec fn flatten_pixels(pixels: Seq<[u8; 4]>) -> Seq<u8> {
    Seq::new(4 * pixels.len(), |j: int| pixels[j / 4][j % 4])
}

/// `bytemuck::cast_slice::<[u8; 4], u8>`, copied into a new vector.  An
/// array of four bytes has the size and alignment of its bytes laid side by
/// side, so the cast reinterprets the pixels in place: the result holds
/// `4 * n` bytes, pixel `i` channel `k` at index `4 * i + k`; the cast
/// cannot fail for this pair of types.
#[verifier::external_body]
fn cast_pixels_to_bytes(pixels: &[[u8; 4]]) -> (bytes: Vec<u8>)
    ensures
        bytes@ == flatten_pixels(pixels@),
{
    bytemuck::cast_slice::<[u8; 4], u8>(pixels).to_vec()
}

/// The bytes of a splat weight map for upload as an RGBA8 texture: the
/// pixels' channels in row-major order, four bytes per pixel.
pub fn weight_map_bytes(pixels: &[[u8; 4]]) -> (bytes: Vec<u8>)
    ensures
        bytes@ == flatten_pixels(pixels@),
        bytes@.len() == 4 * pixels@.len(),
        forall|i: int, k: int|
            0 <= i < pixels@.len() && 0 <= k < 4 ==> #[trigger] bytes@[4 * i + k] == pixels@[i][k],
{
    let bytes = cast_pixels_to_bytes(pixels);
    proof {
        assert forall|i: int, k: int| 0 <= i < pixels@.len() && 0 <= k < 4 implies #[trigger] bytes@[4
            * i + k] == pixels@[i][k] by {
            assert((4 * i + k) / 4 == i) by (nonlinear_arith)
                requires
                    0 <= k < 4,
            ;
            assert((4 * i + k) % 4 == k) by (nonlinear_arith)
                requires
                    0 <= k < 4,
            ;
            assert(4 * i + k < 4 * pixels@.len()) by (nonlinear_arith)
                requires
                    0 <= k < 4,
                    i < pixels@.len(),
            ;
        }
    }
    bytes
}

} // verus!
