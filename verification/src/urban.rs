//! Urban layer: road-graph topology for the debug overlays, the rebuild
//! decisions of road meshes and buildings, the CGA grammar's rule lines,
//! and the debounced regeneration of road and building textures.
//!
//! Node positions, lot footprints and meshes are real-valued and handled by
//! the caller; what is decided on indices and flags lives here.
use vstd::prelude::*;
use vstd::string::StringSliceAdditionalSpecFns;

verus! {

/// Classification of a road segment.
#[derive(Debug, PartialEq, Eq, Structural, Clone, Copy)]
pub enum RoadKind {
    /// Contour-following avenue.
    Major,
    /// Gradient-following street.
    Minor,
}

/// A road edge of the graph by its endpoint node indices.
#[derive(Debug, PartialEq, Eq, Structural, Clone, Copy)]
pub struct RoadEdgeRef {
    pub start: u32,
    pub end: u32,
    pub kind: RoadKind,
    /// `false` once the edge was split and superseded by two others.
    pub active: bool,
}

/// A segment to draw between two nodes.
#[derive(Debug, PartialEq, Eq, Structural, Clone, Copy)]
pub struct RoadSegment {
    pub start: usize,
    pub end: usize,
    pub kind: RoadKind,
}

/// The segments drawn for `edges`: the active ones, in graph order.
pub open spec fn road_segments(edges: Seq<RoadEdgeRef>) -> Seq<RoadSegment>
    decreases edges.len(),
{
    if edges.len() == 0 {
        Seq::empty()
    } else {
        let e = edges.last();
        let rest = road_segments(edges.drop_last());
        if e.active {
            rest.push(RoadSegment { start: e.start as usize, end: e.end as usize, kind: e.kind })
        } else {
            rest
        }
    }
}

/// Every active edge joins nodes that exist.
pub open spec fn edges_in_graph(node_count: nat, edges: Seq<RoadEdgeRef>) -> bool {
    forall|i: int|
        0 <= i < edges.len() && (#[trigger] edges[i]).active ==> edges[i].start < node_count
            && edges[i].end < node_count
}

proof fn lemma_segments_in_graph(node_count: nat, edges: Seq<RoadEdgeRef>)
    requires
        edges_in_graph(node_count, edges),
    ensures
        forall|j: int|
            0 <= j < road_segments(edges).len() ==> (#[trigger] road_segments(edges)[j]).start
                < node_count && road_segments(edges)[j].end < node_count,
    decreases edges.len(),
{
    if edges.len() > 0 {
        assert(edges_in_graph(node_count, edges.drop_last())) by {
            assert forall|i: int|
                0 <= i < edges.drop_last().len() && (#[trigger] edges.drop_last()[i]).active implies edges.drop_last()[i].start
                < node_count && edges.drop_last()[i].end < node_count by {
                assert(edges.drop_last()[i] == edges[i]);
            }
        }
        lemma_segments_in_graph(node_count, edges.drop_last());
        assert(edges[edges.len() - 1] == edges.last());
    }
}

/// Whether an edge is drawn.
pub open spec fn edge_is_active() -> spec_fn(RoadEdgeRef) -> bool {
    |e: RoadEdgeRef| e.active
}

/// The segment drawn for an edge: its endpoints and kind.
pub open spec fn edge_segment() -> spec_fn(RoadEdgeRef) -> RoadSegment {
    |e: RoadEdgeRef| RoadSegment { start: e.start as usize, end: e.end as usize, kind: e.kind }
}

/// The overlay draws every active edge and nothing else, in graph order:
/// the segments are the graph's edges filtered on `active`, each turned
/// into its segment; there are as many as there are active edges; every
/// active edge's segment is drawn; and a graph whose edges are all active
/// is drawn whole.
pub proof fn lemma_segments_are_active_edges(edges: Seq<RoadEdgeRef>)
    ensures
        road_segments(edges) == edges.filter(edge_is_active()).map_values(edge_segment()),
        road_segments(edges).len() == edges.filter(edge_is_active()).len(),
        forall|i: int|
            0 <= i < edges.len() && (#[trigger] edges[i]).active ==> road_segments(edges).contains(
                RoadSegment {
                    start: edges[i].start as usize,
                    end: edges[i].end as usize,
                    kind: edges[i].kind,
                },
            ),
        (forall|i: int| 0 <= i < edges.len() ==> (#[trigger] edges[i]).active) ==> road_segments(
            edges,
        ) == edges.map_values(edge_segment()),
    decreases edges.len(),
{
    reveal(Seq::filter);
    let pred = edge_is_active();
    let g = edge_segment();
    if edges.len() > 0 {
        let prefix = edges.drop_last();
        let last = edges.last();
        lemma_segments_are_active_edges(prefix);
        let f = prefix.filter(pred);
        assert(edges.filter(pred) == if pred(last) {
            f.push(last)
        } else {
            f
        });
        if last.active {
            assert(f.push(last).map_values(g) =~= f.map_values(g).push(g(last)));
        }
        assert forall|i: int| 0 <= i < edges.len() && (#[trigger] edges[i]).active implies road_segments(
            edges,
        ).contains(
            RoadSegment {
                start: edges[i].start as usize,
                end: edges[i].end as usize,
                kind: edges[i].kind,
            },
        ) by {
            let seg = RoadSegment {
                start: edges[i].start as usize,
                end: edges[i].end as usize,
                kind: edges[i].kind,
            };
            if i == edges.len() - 1 {
                assert(road_segments(edges)[road_segments(edges).len() - 1] == seg);
            } else {
                assert(prefix[i] == edges[i]);
                let k = choose|k: int|
                    0 <= k < road_segments(prefix).len() && road_segments(prefix)[k] == seg;
                assert(road_segments(edges)[k] == seg);
            }
        }
        if forall|i: int| 0 <= i < edges.len() ==> (#[trigger] edges[i]).active {
            assert forall|i: int| 0 <= i < prefix.len() implies (#[trigger] prefix[i]).active by {
                assert(prefix[i] == edges[i]);
            }
            assert(edges[edges.len() - 1].active);
            assert(prefix.map_values(g).push(g(last)) =~= edges.map_values(g));
        }
    } else {
        assert(edges.map_values(g) =~= Seq::<RoadSegment>::empty());
    }
}

/// The road segments the overlay draws: every active edge, in graph order,
/// as node indices (each below `node_count`) with its road kind.
pub fn visible_road_segments(node_count: usize, edges: &[RoadEdgeRef]) -> (r: Vec<RoadSegment>)
    requires
        edges_in_graph(node_count as nat, edges@),
    ensures
        r@ == road_segments(edges@),
        r@ == edges@.filter(edge_is_active()).map_values(edge_segment()),
        r@.len() == edges@.filter(edge_is_active()).len(),
        forall|i: int|
            0 <= i < edges@.len() && (#[trigger] edges@[i]).active ==> r@.contains(
                RoadSegment {
                    start: edges@[i].start as usize,
                    end: edges@[i].end as usize,
                    kind: edges@[i].kind,
                },
            ),
        forall|j: int| 0 <= j < r@.len() ==> (#[trigger] r@[j]).start < node_count && r@[j].end < node_count,
{
    let mut out: Vec<RoadSegment> = Vec::new();
    let mut i: usize = 0;
    while i < edges.len()
        invariant
            i <= edges@.len(),
            out@ == road_segments(edges@.subrange(0, i as int)),
        decreases edges@.len() - i,
    {
        let e = edges[i];
        proof {
            assert(edges@.subrange(0, (i + 1) as int).drop_last() =~= edges@.subrange(0, i as int));
        }
        if e.active {
            out.push(RoadSegment { start: e.start as usize, end: e.end as usize, kind: e.kind });
        }
        i = i + 1;
    }
    proof {
        assert(edges@.subrange(0, edges@.len() as int) =~= edges@);
        lemma_segments_in_graph(node_count as nat, edges@);
        lemma_segments_are_active_edges(edges@);
    }
    out
}

/// The closed outline of a block perimeter: consecutive node pairs, the
/// last one joining back to the first; nothing for fewer than 3 nodes.
pub open spec fn block_outline_spec(perimeter: Seq<u32>) -> Seq<(u32, u32)> {
    if perimeter.len() < 3 {
        Seq::empty()
    } else {
        Seq::new(
            perimeter.len(),
            |i: int| (perimeter[i], perimeter[(i + 1) % (perimeter.len() as int)]),
        )
    }
}

/// A block outline is a closed chain through the whole perimeter: one
/// edge per perimeter node, starting at that node, each edge ending where
/// the next one starts, and the last edge returning to the first node.
pub proof fn lemma_block_outline_is_closed_chain(perimeter: Seq<u32>)
    requires
        perimeter.len() >= 3,
    ensures
        block_outline_spec(perimeter).len() == perimeter.len(),
        forall|i: int|
            0 <= i < perimeter.len() ==> (#[trigger] block_outline_spec(perimeter)[i]).0
                == perimeter[i],
        forall|i: int|
            0 <= i < perimeter.len() - 1 ==> (#[trigger] block_outline_spec(perimeter)[i]).1
                == block_outline_spec(perimeter)[i + 1].0,
        block_outline_spec(perimeter)[perimeter.len() - 1].1 == block_outline_spec(perimeter)[0].0,
{
    let n = perimeter.len() as int;
    assert forall|i: int| 0 <= i < n - 1 implies (#[trigger] block_outline_spec(perimeter)[i]).1
        == block_outline_spec(perimeter)[i + 1].0 by {
        assert((i + 1) % n == i + 1) by (nonlinear_arith)
            requires
                0 <= i < n - 1,
        ;
    }
    assert((n - 1 + 1) % n == 0) by (nonlinear_arith)
        requires
            n >= 3,
    ;
}

/// The edges of a city block's outline (see [`block_outline_spec`]).
pub fn block_outline(perimeter: &[u32]) -> (r: Vec<(u32, u32)>)
    ensures
        r@ == block_outline_spec(perimeter@),
{
    let mut out: Vec<(u32, u32)> = Vec::new();
    let n = perimeter.len();
    if n < 3 {
        return out;
    }
    let mut i: usize = 0;
    while i < n
        invariant
            n == perimeter@.len(),
            n >= 3,
            i <= n,
            out@.len() == i,
            forall|k: int|
                0 <= k < i ==> #[trigger] out@[k] == (perimeter@[k], perimeter@[(k + 1) % (
                n as int)]),
        decreases n - i,
    {
        let next: usize = if i + 1 == n {
            0
        } else {
            i + 1
        };
        proof {
            if i + 1 == n {
                assert((i + 1) % (n as int) == 0) by (nonlinear_arith)
                    requires
                        i + 1 == n,
                        n > 0,
                ;
            } else {
                assert((i + 1) % (n as int) == i + 1) by (nonlinear_arith)
                    requires
                        i + 1 < n,
                ;
            }
        }
        out.push((perimeter[i], perimeter[next]));
        i = i + 1;
    }
    assert(out@ =~= block_outline_spec(perimeter@));
    out
}

/// What a rebuild system must do with its entities this frame.
#[derive(Debug, PartialEq, Eq, Structural, Clone, Copy)]
pub enum RebuildPlan {
    /// Nothing changed: keep what is spawned.
    Keep,
    /// Despawn what is spawned and spawn nothing.
    ClearOnly,
    /// Despawn what is spawned and spawn anew.
    Rebuild,
}

/// Road meshes: rebuilt when the road graph or the urban settings changed,
/// and only spawned when urban generation and 3D roads are on and a graph,
/// a heightmap and the road material exist.
pub fn plan_road_meshes(
    graph_changed: bool,
    config_changed: bool,
    enabled: bool,
    render_roads: bool,
    have_inputs: bool,
) -> (p: RebuildPlan)
    ensures
        p == if !graph_changed && !config_changed {
            RebuildPlan::Keep
        } else if enabled && render_roads && have_inputs {
            RebuildPlan::Rebuild
        } else {
            RebuildPlan::ClearOnly
        },
{
    if !graph_changed && !config_changed {
        RebuildPlan::Keep
    } else if enabled && render_roads && have_inputs {
        RebuildPlan::Rebuild
    } else {
        RebuildPlan::ClearOnly
    }
}

/// A mesh is only spawned when it has vertices and indices.
pub fn mesh_has_geometry(vertex_count: usize, index_count: usize) -> (r: bool)
    ensures
        r == (vertex_count > 0 && index_count > 0),
{
    vertex_count > 0 && index_count > 0
}

/// Buildings: rebuilt when the lots or the architecture settings changed;
/// spawned only when architecture is enabled, there are lots and a
/// heightmap.
pub fn plan_buildings(
    lots_changed: bool,
    config_changed: bool,
    enabled: bool,
    lot_count: usize,
    have_heightmap: bool,
) -> (p: RebuildPlan)
    ensures
        p == if !lots_changed && !config_changed {
            RebuildPlan::Keep
        } else if enabled && lot_count > 0 && have_heightmap {
            RebuildPlan::Rebuild
        } else {
            RebuildPlan::ClearOnly
        },
{
    if !lots_changed && !config_changed {
        RebuildPlan::Keep
    } else if enabled && lot_count > 0 && have_heightmap {
        RebuildPlan::Rebuild
    } else {
        RebuildPlan::ClearOnly
    }
}

/// How many lots receive a building: all of them, capped at `max_buildings`.
pub fn building_count(lot_count: usize, max_buildings: usize) -> (n: usize)
    ensures
        n == if lot_count < max_buildings {
            lot_count
        } else {
            max_buildings
        },
{
    if lot_count < max_buildings {
        lot_count
    } else {
        max_buildings
    }
}

/// The grammar interpreter's seed for the `i`-th building, so that each
/// lot derives the same building on every rebuild.
pub fn building_seed(i: u64) -> (seed: u64)
    requires
        i * 12345 + 99 <= u64::MAX,
    ensures
        seed == i * 12345 + 99,
{
    i * 12345 + 99
}

/// ASCII `/`.
pub const COMMENT_SLASH: u8 = 47;

/// Whether a trimmed line of grammar source holds a rule: blank lines and
/// `//` comments do not.
pub fn is_grammar_rule_line(line: &str) -> (r: bool)
    ensures
        r == (line.spec_bytes().len() > 0 && !(line.spec_bytes().len() >= 2
            && line.spec_bytes()[0] == COMMENT_SLASH && line.spec_bytes()[1] == COMMENT_SLASH)),
{
    let bytes = line.as_bytes();
    if bytes.len() == 0 {
        return false;
    }
    !(bytes.len() >= 2 && bytes[0] == COMMENT_SLASH && bytes[1] == COMMENT_SLASH)
}

/// Debounced regeneration of the road surface texture.
pub struct RoadMaterialState {
    pub textures_dirty: bool,
    pub texture_debounce_pending: bool,
}

impl RoadMaterialState {
    /// Nothing to regenerate.
    pub fn new() -> (s: Self)
        ensures
            !s.textures_dirty,
            !s.texture_debounce_pending,
    {
        RoadMaterialState { textures_dirty: false, texture_debounce_pending: false }
    }

    /// The road material was edited: the caller resets its timer.
    pub fn note_edit(&mut self)
        ensures
            final(self).texture_debounce_pending,
            final(self).textures_dirty == old(self).textures_dirty,
    {
        self.texture_debounce_pending = true;
    }

    /// One frame of the regeneration system.  `timer_finished` reports
    /// whether the debounce timer, ticked because an edit is pending, ran
    /// out, which makes the textures dirty.  A dirty request is consumed;
    /// the asphalt task is respawned only while urban generation and 3D
    /// roads are on.
    pub fn poll(&mut self, timer_finished: bool, enabled: bool, render_roads: bool) -> (respawn:
        bool)
        ensures
            ({
                let fired = old(self).texture_debounce_pending && timer_finished;
                let requested = old(self).textures_dirty || fired;
                &&& final(self).texture_debounce_pending == (old(self).texture_debounce_pending
                    && !timer_finished)
                &&& !final(self).textures_dirty
                &&& respawn == (requested && enabled && render_roads)
            }),
    {
        if self.texture_debounce_pending && timer_finished {
            self.texture_debounce_pending = false;
            self.textures_dirty = true;
        }
        if !self.textures_dirty {
            return false;
        }
        self.textures_dirty = false;
        enabled && render_roads
    }
}

/// Debounced regeneration of the building facade textures.
pub struct ArchitectureMaterialState {
    /// Set when a texture parameter changes; cleared once textures are
    /// re-spawned.
    pub textures_dirty: bool,
    /// True while the debounce timer is counting down.
    pub texture_debounce_pending: bool,
}

impl ArchitectureMaterialState {
    /// Nothing to regenerate.
    pub fn new() -> (s: Self)
        ensures
            !s.textures_dirty,
            !s.texture_debounce_pending,
    {
        ArchitectureMaterialState { textures_dirty: false, texture_debounce_pending: false }
    }

    /// A facade texture parameter was edited: the caller resets its timer.
    pub fn note_edit(&mut self)
        ensures
            final(self).texture_debounce_pending,
            final(self).textures_dirty == old(self).textures_dirty,
    {
        self.texture_debounce_pending = true;
    }

    /// One frame of the regeneration: once the debounce timer fires the
    /// textures are dirty, and a dirty request is consumed by respawning
    /// the facade texture tasks.
    pub fn poll(&mut self, timer_finished: bool) -> (respawn: bool)
        ensures
            respawn == (old(self).textures_dirty || (old(self).texture_debounce_pending
                && timer_finished)),
            final(self).texture_debounce_pending == (old(self).texture_debounce_pending
                && !timer_finished),
            !final(self).textures_dirty,
    {
        if self.texture_debounce_pending && timer_finished {
            self.texture_debounce_pending = false;
            self.textures_dirty = true;
        }
        let respawn = self.textures_dirty;
        self.textures_dirty = false;
        respawn
    }
}

} // verus!
