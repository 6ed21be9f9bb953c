//! Verified core of Symbios Ground Lab, an interactive terrain generator
//! and editor: export formats, pipeline state machines and the integer
//! bookkeeping of the erosion visualisation.
pub mod obj;
pub mod trail;
pub mod flags;
pub mod erosion_viz;
pub mod material;
pub mod export;
pub mod generation;
pub mod urban;
