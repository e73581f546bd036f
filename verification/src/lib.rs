//! Integer core of a ray/path tracer: render statistics, the wyhash sampling
//! generator, tile scheduling, progress accounting, the octree octant
//! arithmetic and the quantized image buffer. The floating-point geometry
//! around it lives in the driver, which feeds this library plain values.

pub mod config;
pub mod image;
pub mod octree;
pub mod progress;
pub mod rng;
pub mod tiles;

use vstd::prelude::*;

verus! {

/// Counters for rays cast and intersection tests, kept per task and merged at
/// task end.
#[derive(Clone, Copy, Debug)]
pub struct RenderStats {
    pub num_rays_sampling: u64,
    pub num_rays_sampling_max: u64,
    pub num_rays_reflection: u64,
    pub num_rays_reflection_max: u64,
    pub num_intersects_plane: u64,
    pub num_intersects_sphere: u64,
    pub num_intersects_triangle: u64,
    pub num_intersects_aabb: u64,
}

impl RenderStats {
    /// Merge another task's counters into this one, field by field.
    pub fn add(&mut self, other: RenderStats)
        requires
            old(self).num_rays_sampling + other.num_rays_sampling <= u64::MAX,
            old(self).num_rays_sampling_max + other.num_rays_sampling_max <= u64::MAX,
            old(self).num_rays_reflection + other.num_rays_reflection <= u64::MAX,
            old(self).num_rays_reflection_max + other.num_rays_reflection_max <= u64::MAX,
            old(self).num_intersects_plane + other.num_intersects_plane <= u64::MAX,
            old(self).num_intersects_sphere + other.num_intersects_sphere <= u64::MAX,
            old(self).num_intersects_triangle + other.num_intersects_triangle <= u64::MAX,
            old(self).num_intersects_aabb + other.num_intersects_aabb <= u64::MAX,
        ensures
            final(self).num_rays_sampling == old(self).num_rays_sampling + other.num_rays_sampling,
            final(self).num_rays_sampling_max == old(self).num_rays_sampling_max
                + other.num_rays_sampling_max,
            final(self).num_rays_reflection == old(self).num_rays_reflection
                + other.num_rays_reflection,
            final(self).num_rays_reflection_max == old(self).num_rays_reflection_max
                + other.num_rays_reflection_max,
            final(self).num_intersects_plane == old(self).num_intersects_plane
                + other.num_intersects_plane,
            final(self).num_intersects_sphere == old(self).num_intersects_sphere
                + other.num_intersects_sphere,
            final(self).num_intersects_triangle == old(self).num_intersects_triangle
                + other.num_intersects_triangle,
            final(self).num_intersects_aabb == old(self).num_intersects_aabb
                + other.num_intersects_aabb,
    {
        self.num_rays_sampling = self.num_rays_sampling + other.num_rays_sampling;
        self.num_rays_sampling_max = self.num_rays_sampling_max + other.num_rays_sampling_max;
        self.num_rays_reflection = self.num_rays_reflection + other.num_rays_reflection;
        self.num_rays_reflection_max = self.num_rays_reflection_max
            + other.num_rays_reflection_max;
        self.num_intersects_sphere = self.num_intersects_sphere + other.num_intersects_sphere;
        self.num_intersects_plane = self.num_intersects_plane + other.num_intersects_plane;
        self.num_intersects_triangle = self.num_intersects_triangle
            + other.num_intersects_triangle;
        self.num_intersects_aabb = self.num_intersects_aabb + other.num_intersects_aabb;
    }
}

impl Default for RenderStats {
    /// A fresh task starts with every counter at zero.
    fn default() -> (r: RenderStats)
        ensures
            r.num_rays_sampling == 0,
            r.num_rays_sampling_max == 0,
            r.num_rays_reflection == 0,
            r.num_rays_reflection_max == 0,
            r.num_intersects_plane == 0,
            r.num_intersects_sphere == 0,
            r.num_intersects_triangle == 0,
            r.num_intersects_aabb == 0,
    {
        RenderStats {
            num_rays_sampling: 0,
            num_rays_sampling_max: 0,
            num_rays_reflection: 0,
            num_rays_reflection_max: 0,
            num_intersects_plane: 0,
            num_intersects_sphere: 0,
            num_intersects_triangle: 0,
            num_intersects_aabb: 0,
        }
    }
}

} // verus!
