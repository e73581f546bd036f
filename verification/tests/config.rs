use rayflex::config::{RenderConfig, SampleDecision, TILE_STEP, TILE_STEP_PATH};

fn base_config() -> RenderConfig {
    RenderConfig {
        path_tracing: 1,
        use_lines: false,
        use_hashmap: false,
        use_adaptive_sampling: false,
        use_gamma: false,
        adaptive_max_depth: 2,
        reflection_max_depth: 6,
        res_x: 400,
        res_y: 400,
    }
}

#[test]
fn path_tracing_needs_more_than_one_sample() {
    let mut cfg = base_config();
    assert!(!cfg.is_path_tracing());
    cfg.path_tracing = 2;
    assert!(cfg.is_path_tracing());
}

#[test]
fn tile_step_shrinks_under_path_tracing() {
    let mut cfg = base_config();
    assert_eq!(cfg.tile_step(), TILE_STEP);
    cfg.path_tracing = 200;
    assert_eq!(cfg.tile_step(), TILE_STEP_PATH);
}

#[test]
fn depth_cap_drops_rays_strictly_beyond_it() {
    let cfg = base_config();
    assert!(!cfg.depth_exceeded(0));
    assert!(!cfg.depth_exceeded(6));
    assert!(cfg.depth_exceeded(7));
}

#[test]
fn adaptive_decision_subdivides_only_below_the_cap() {
    let cfg = base_config();
    assert_eq!(cfg.adaptive_decision(0, true), SampleDecision::Subdivide);
    assert_eq!(cfg.adaptive_decision(0, false), SampleDecision::AverageCorners);
    assert_eq!(cfg.adaptive_decision(1, true), SampleDecision::Subdivide);
    assert_eq!(cfg.adaptive_decision(2, true), SampleDecision::AtMaxDepth);
    assert_eq!(cfg.adaptive_decision(2, false), SampleDecision::AtMaxDepth);
}
