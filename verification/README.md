# Symbios Ground Lab

An interactive 3D terrain generator and editor (Bevy), split into a
verified library and the application around it.

- `src/` — the library, verified with Verus:
  - `obj` — Wavefront OBJ export: face section, UV fractions, header and
    document assembly, buffer-size estimate, web export limit.
  - `export` — export status, 16-bit grayscale PNG encoding of heightmap
    samples (through the `image` crate).
  - `generation` — the generation plan derived from the terrain settings
    (base generator, optional hydraulic pass).
  - `flags`, `trail` — dirty flags, regeneration debounce, droplet trails.
  - `erosion_viz` — droplet list and counters of the step-by-step erosion
    visualisation.
  - `material` — the splat-material pipeline state machine, layer data
    merging and weight-map bytes (through `bytemuck`).
  - `urban` — road overlay segments, block outlines, rebuild decisions,
    grammar rule lines, and debounced road/facade texture regeneration.
- `tests/` — tests of the library on concrete values.
- `app/` — the Bevy application: resources, egui panels, rendering,
  real-valued terrain passes, async tasks and file I/O.
