use rayflex::RenderStats;

#[test]
fn default_stats_are_zero() {
    let s = RenderStats::default();
    assert_eq!(s.num_rays_sampling, 0);
    assert_eq!(s.num_rays_sampling_max, 0);
    assert_eq!(s.num_rays_reflection, 0);
    assert_eq!(s.num_rays_reflection_max, 0);
    assert_eq!(s.num_intersects_plane, 0);
    assert_eq!(s.num_intersects_sphere, 0);
    assert_eq!(s.num_intersects_triangle, 0);
    assert_eq!(s.num_intersects_aabb, 0);
}

#[test]
fn add_merges_every_counter() {
    let mut total = RenderStats::default();
    total.num_rays_sampling = 10;
    total.num_rays_sampling_max = 1;
    total.num_rays_reflection = 7;
    total.num_rays_reflection_max = 2;
    total.num_intersects_plane = 100;
    total.num_intersects_sphere = 200;
    total.num_intersects_triangle = 300;
    total.num_intersects_aabb = 400;

    let mut task = RenderStats::default();
    task.num_rays_sampling = 5;
    task.num_rays_sampling_max = 4;
    task.num_rays_reflection = 3;
    task.num_rays_reflection_max = 2;
    task.num_intersects_plane = 11;
    task.num_intersects_sphere = 22;
    task.num_intersects_triangle = 33;
    task.num_intersects_aabb = 44;

    total.add(task);
    assert_eq!(total.num_rays_sampling, 15);
    assert_eq!(total.num_rays_sampling_max, 5);
    assert_eq!(total.num_rays_reflection, 10);
    assert_eq!(total.num_rays_reflection_max, 4);
    assert_eq!(total.num_intersects_plane, 111);
    assert_eq!(total.num_intersects_sphere, 222);
    assert_eq!(total.num_intersects_triangle, 333);
    assert_eq!(total.num_intersects_aabb, 444);

    // The task-local copy is unchanged and can be merged again elsewhere.
    assert_eq!(task.num_rays_sampling, 5);
}
