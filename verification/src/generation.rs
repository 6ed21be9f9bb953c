//! The sequence of passes that turns terrain settings into a heightmap.
//!
//! Generation creates a square grid, runs one base generator, scales the
//! heights, optionally carves a road network into it, then optionally runs
//! hydraulic and thermal erosion.  The passes compute on real numbers and
//! run in the caller; this module fixes which passes run, in which order,
//! and with which discrete parameters.
use vstd::prelude::*;

verus! {

/// Base terrain algorithm.
#[derive(Debug, PartialEq, Eq, Structural, Clone, Copy)]
pub enum GeneratorKind {
    /// Fractional Brownian Motion over several noise octaves.
    FbmNoise,
    /// Mid-point displacement.
    DiamondSquare,
    /// Voronoi-cell terracing.
    VoronoiTerracing,
}

/// The discrete terrain settings that steer generation (the real-valued
/// ones are passed through to the passes unchanged).
#[derive(Debug, Clone, Copy)]
pub struct GenerationSettings {
    pub grid_size: u32,
    pub seed: u64,
    pub generator_kind: GeneratorKind,
    pub octaves: u32,
    pub voronoi_num_seeds: u32,
    pub voronoi_num_terraces: u32,
    pub erosion_enabled: bool,
    pub erosion_drops: u32,
    pub thermal_enabled: bool,
    pub thermal_iterations: u32,
}

/// The base generator to run, with its discrete parameters.
#[derive(Debug, PartialEq, Eq, Structural, Clone, Copy)]
pub enum BaseGenerator {
    /// FBM noise; its output is normalised to `[0, 1]` before scaling.
    FbmNoise { seed: u64, octaves: u32 },
    DiamondSquare { seed: u64 },
    VoronoiTerracing { seed: u64, num_seeds: usize, num_terraces: usize },
}

/// Hydraulic erosion pass.
#[derive(Debug, PartialEq, Eq, Structural, Clone, Copy)]
pub struct HydraulicPass {
    pub seed: u64,
    pub num_drops: u32,
}

/// Thermal erosion pass.
#[derive(Debug, PartialEq, Eq, Structural, Clone, Copy)]
pub struct ThermalPass {
    pub iterations: u32,
    /// The pass respects the water level: below it, material slides at the
    /// gentler underwater talus angle.
    pub water_aware: bool,
}

/// The ordered passes of one generation.
#[derive(Debug, PartialEq, Eq, Structural, Clone, Copy)]
pub struct GenerationPlan {
    /// The grid is `size × size` samples.
    pub size: usize,
    pub base: BaseGenerator,
    /// Trace roads and carve them into the terrain before erosion.
    pub carve_roads: bool,
    pub hydraulic: Option<HydraulicPass>,
    pub thermal: Option<ThermalPass>,
}

/// The smallest grid the generators accept has 2 samples per side.
pub open spec fn spec_grid_side(grid_size: u32) -> nat {
    if grid_size < 2 {
        2
    } else {
        grid_size as nat
    }
}

/// Voronoi counts are at least 1.
pub open spec fn at_least_one(n: u32) -> nat {
    if n < 1 {
        1
    } else {
        n as nat
    }
}

/// The base generator selected by the settings.
pub open spec fn spec_base_generator(s: GenerationSettings) -> BaseGenerator {
    match s.generator_kind {
        GeneratorKind::FbmNoise => BaseGenerator::FbmNoise { seed: s.seed, octaves: s.octaves },
        GeneratorKind::DiamondSquare => BaseGenerator::DiamondSquare { seed: s.seed },
        GeneratorKind::VoronoiTerracing => BaseGenerator::VoronoiTerracing {
            seed: s.seed,
            num_seeds: at_least_one(s.voronoi_num_seeds) as usize,
            num_terraces: at_least_one(s.voronoi_num_terraces) as usize,
        },
    }
}

/// Side length of the generated grid: the requested size, at least 2.
pub fn grid_side(grid_size: u32) -> (side: usize)
    ensures
        side == spec_grid_side(grid_size),
{
    if grid_size < 2 {
        2
    } else {
        grid_size as usize
    }
}

fn base_generator(s: &GenerationSettings) -> (b: BaseGenerator)
    ensures
        b == spec_base_generator(*s),
{
    match s.generator_kind {
        GeneratorKind::FbmNoise => BaseGenerator::FbmNoise { seed: s.seed, octaves: s.octaves },
        GeneratorKind::DiamondSquare => BaseGenerator::DiamondSquare { seed: s.seed },
        GeneratorKind::VoronoiTerracing => {
            let seeds: u32 = if s.voronoi_num_seeds < 1 {
                1
            } else {
                s.voronoi_num_seeds
            };
            let terraces: u32 = if s.voronoi_num_terraces < 1 {
                1
            } else {
                s.voronoi_num_terraces
            };
            BaseGenerator::VoronoiTerracing {
                seed: s.seed,
                num_seeds: seeds as usize,
                num_terraces: terraces as usize,
            }
        },
    }
}

/// The base heightmap only (no erosion), as the erosion visualisation
/// starts from: grid, base generator and, when urban generation is on,
/// road carving.
pub open spec fn spec_base_plan(s: GenerationSettings, urban_enabled: bool) -> GenerationPlan {
    GenerationPlan {
        size: spec_grid_side(s.grid_size) as usize,
        base: spec_base_generator(s),
        carve_roads: urban_enabled,
        hydraulic: None,
        thermal: None,
    }
}

/// The full generation: the base heightmap, then hydraulic erosion (seeded
/// like the terrain) when enabled, then thermal erosion, respecting the
/// water level, when enabled.
pub open spec fn spec_full_plan(s: GenerationSettings, urban_enabled: bool) -> GenerationPlan {
    GenerationPlan {
        size: spec_grid_side(s.grid_size) as usize,
        base: spec_base_generator(s),
        carve_roads: urban_enabled,
        hydraulic: if s.erosion_enabled {
            Some(HydraulicPass { seed: s.seed, num_drops: s.erosion_drops })
        } else {
            None
        },
        thermal: if s.thermal_enabled {
            Some(ThermalPass { iterations: s.thermal_iterations, water_aware: true })
        } else {
            None
        },
    }
}

/// Plans the base heightmap of `s` (see [`spec_base_plan`]).
pub fn plan_base_generation(s: &GenerationSettings, urban_enabled: bool) -> (p: GenerationPlan)
    ensures
        p == spec_base_plan(*s, urban_enabled),
        p.size >= 2,
{
    GenerationPlan {
        size: grid_side(s.grid_size),
        base: base_generator(s),
        carve_roads: urban_enabled,
        hydraulic: None,
        thermal: None,
    }
}

/// Plans the full generation of `s` (see [`spec_full_plan`]).
pub fn plan_generation(s: &GenerationSettings, urban_enabled: bool) -> (p: GenerationPlan)
    ensures
        p == spec_full_plan(*s, urban_enabled),
        p.size >= 2,
        p.size == spec_grid_side(s.grid_size),
        p.base == spec_base_generator(*s),
        p.carve_roads == urban_enabled,
        p.hydraulic is Some <==> s.erosion_enabled,
        p.thermal is Some <==> s.thermal_enabled,
        p.hydraulic matches Some(h) ==> h.seed == s.seed && h.num_drops == s.erosion_drops,
        p.thermal matches Some(t) ==> t.iterations == s.thermal_iterations && t.water_aware,
{
    proof {
        lemma_erosion_passes_follow_their_switches(*s, urban_enabled, false, false);
    }
    let base = plan_base_generation(s, urban_enabled);
    let hydraulic = if s.erosion_enabled {
        Some(HydraulicPass { seed: s.seed, num_drops: s.erosion_drops })
    } else {
        None
    };
    let thermal = if s.thermal_enabled {
        Some(ThermalPass { iterations: s.thermal_iterations, water_aware: true })
    } else {
        None
    };
    GenerationPlan { hydraulic, thermal, ..base }
}

/// Each erosion pass follows its own switch: the full plan runs hydraulic
/// erosion exactly when it is enabled (seeded like the terrain, with the
/// configured drop count) and thermal erosion exactly when it is enabled
/// (with the configured iterations, respecting the water level); turning
/// one pass on or off leaves the other pass, the grid, the base generator
/// and road carving as they were.
pub proof fn lemma_erosion_passes_follow_their_switches(
    s: GenerationSettings,
    urban: bool,
    hydraulic_on: bool,
    thermal_on: bool,
)
    ensures
        spec_full_plan(s, urban).hydraulic is Some <==> s.erosion_enabled,
        spec_full_plan(s, urban).thermal is Some <==> s.thermal_enabled,
        spec_full_plan(s, urban).hydraulic matches Some(h) ==> h.seed == s.seed && h.num_drops
            == s.erosion_drops,
        spec_full_plan(s, urban).thermal matches Some(t) ==> t.iterations == s.thermal_iterations
            && t.water_aware,
        spec_full_plan(GenerationSettings { erosion_enabled: hydraulic_on, ..s }, urban).thermal
            == spec_full_plan(s, urban).thermal,
        spec_full_plan(GenerationSettings { thermal_enabled: thermal_on, ..s }, urban).hydraulic
            == spec_full_plan(s, urban).hydraulic,
        spec_full_plan(GenerationSettings { erosion_enabled: hydraulic_on, ..s }, urban)
            == (GenerationPlan {
            hydraulic: spec_full_plan(
                GenerationSettings { erosion_enabled: hydraulic_on, ..s },
                urban,
            ).hydraulic,
            ..spec_full_plan(s, urban)
        }),
        spec_full_plan(s, urban).size == spec_grid_side(s.grid_size),
        spec_full_plan(s, urban).base == spec_base_generator(s),
        spec_full_plan(s, urban).carve_roads == urban,
{
}

/// The erosion visualisation starts from the terrain the full generation
/// would erode: the base plan is the full plan without its erosion passes,
/// and it is the full plan of the same settings with both erosions off.
pub proof fn lemma_base_plan_is_full_plan_without_erosion(s: GenerationSettings, urban: bool)
    ensures
        spec_base_plan(s, urban) == (GenerationPlan {
            hydraulic: None,
            thermal: None,
            ..spec_full_plan(s, urban)
        }),
        spec_base_plan(s, urban) == spec_full_plan(
            GenerationSettings { erosion_enabled: false, thermal_enabled: false, ..s },
            urban,
        ),
{
}

} // verus!
