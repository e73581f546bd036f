//! Render configuration and the small scheduling decisions it governs: the
//! tracing mode, the tile side, the recursion depth cap, and the adaptive
//! 2x2 subdivision step.

use vstd::prelude::*;

verus! {

/// The tile side used when parallelizing over square tiles.
pub const TILE_STEP: u32 = 32;

/// The smaller tile side used when path tracing, whose per-pixel work is far
/// heavier.
pub const TILE_STEP_PATH: u32 = 10;

/// The engine's knobs, as plain values. Scene and output file names stay with
/// the driver that does the I/O.
#[derive(Clone, Copy, Debug)]
pub struct RenderConfig {
    /// Samples per pixel; a value above 1 switches to path tracing.
    pub path_tracing: u32,
    /// Parallelize over rows instead of square tiles.
    pub use_lines: bool,
    /// Memoize corner colors per tile while adaptive sampling.
    pub use_hashmap: bool,
    /// Trace the four pixel corners and subdivide where they disagree.
    pub use_adaptive_sampling: bool,
    /// Gamma-encode linear values when the image is saved.
    pub use_gamma: bool,
    /// Cap on adaptive subdivision levels.
    pub adaptive_max_depth: u32,
    /// Cap on reflection / bounce recursion depth.
    pub reflection_max_depth: u32,
    /// Output image width in pixels.
    pub res_x: u32,
    /// Output image height in pixels.
    pub res_y: u32,
}

/// What the sampler does with one pixel box at one subdivision level.
#[derive(Clone, Copy, Debug, PartialEq, Eq, Structural)]
pub enum SampleDecision {
    /// The corners disagree and a level is left: recurse into four quadrants.
    Subdivide,
    /// The corners agree: average them.
    AverageCorners,
    /// The level cap is reached: average regardless and count the event.
    AtMaxDepth,
}

impl RenderConfig {
    /// Path tracing is active when more than one sample per pixel was asked.
    pub fn is_path_tracing(&self) -> (r: bool)
        ensures
            r == (self.path_tracing > 1),
    {
        self.path_tracing > 1
    }

    /// The side of the square tiles the image is split into.
    pub fn tile_step(&self) -> (r: u32)
        ensures
            r == (if self.path_tracing > 1 {
                TILE_STEP_PATH
            } else {
                TILE_STEP
            }),
            1 <= r <= TILE_STEP,
    {
        if self.path_tracing > 1 {
            TILE_STEP_PATH
        } else {
            TILE_STEP
        }
    }

    /// A ray at `depth` is dropped once it passes the recursion cap; the
    /// caller then returns zero radiance and counts the event.
    pub fn depth_exceeded(&self, depth: u32) -> (r: bool)
        ensures
            r == (depth > self.reflection_max_depth),
    {
        depth > self.reflection_max_depth
    }

    /// The adaptive sampler's step for one pixel box: `diff_exceeds` says
    /// whether the corner colors differ beyond the threshold, `level` is the
    /// current subdivision level.
    pub fn adaptive_decision(&self, level: u32, diff_exceeds: bool) -> (r: SampleDecision)
        ensures
            level >= self.adaptive_max_depth ==> r == SampleDecision::AtMaxDepth,
            level < self.adaptive_max_depth && diff_exceeds ==> r == SampleDecision::Subdivide,
            level < self.adaptive_max_depth && !diff_exceeds ==> r
                == SampleDecision::AverageCorners,
    {
        if level < self.adaptive_max_depth {
            if diff_exceeds {
                SampleDecision::Subdivide
            } else {
                SampleDecision::AverageCorners
            }
        } else {
            SampleDecision::AtMaxDepth
        }
    }
}

} // verus!
