//! Motion over the rendered frame and partial renders: movement formulas, a
//! catalogue of presets, and time regions.
pub mod formula;
pub mod presets;
pub mod region;
