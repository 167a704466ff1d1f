use path_tracer::{depth_exceeded, RenderConfig, MAX_DEPTH};

#[test]
fn depth_cutoff_boundary() {
    assert_eq!(MAX_DEPTH, 50);
    assert!(!depth_exceeded(0));
    assert!(!depth_exceeded(1));
    assert!(!depth_exceeded(50));
    assert!(depth_exceeded(51));
    assert!(depth_exceeded(255));
}

#[test]
fn config_accepts_usable_parameters() {
    let c = RenderConfig::new(3840, 2160, 2000, 100, 16).expect("usable configuration");
    assert_eq!(c.width, 3840);
    assert_eq!(c.height, 2160);
    assert_eq!(c.rays_per_pixel, 2000);
    assert_eq!(c.n_work_chunks, 100);
    assert_eq!(c.n_max_threads, 16);
    assert_eq!(c.n_pixels(), 3840 * 2160);
}

#[test]
fn config_rejects_zero_parameters() {
    assert!(RenderConfig::new(0, 2, 3, 4, 5).is_none());
    assert!(RenderConfig::new(1, 0, 3, 4, 5).is_none());
    assert!(RenderConfig::new(1, 2, 0, 4, 5).is_none());
    assert!(RenderConfig::new(1, 2, 3, 0, 5).is_none());
    assert!(RenderConfig::new(1, 2, 3, 4, 0).is_none());
}

#[test]
fn config_rejects_unaddressable_frame() {
    assert!(RenderConfig::new(usize::MAX, 2, 1, 1, 1).is_none());
    assert!(RenderConfig::new(usize::MAX / 2, 1, 1, 1, 1).is_none());
}

#[test]
fn config_builds_chunks_and_scheduler() {
    let c = RenderConfig::new(6, 4, 1, 5, 2).expect("usable configuration");
    let chunks = c.chunks();
    assert_eq!(chunks.len(), 5);
    assert_eq!(chunks[0].from_pixel_index, 0);
    assert_eq!(chunks[4].to_pixel_index, 24);
    let mut sched = c.scheduler();
    assert_eq!(sched.next_action(), path_tracer::Action::Launch(0));
    sched.record_launch();
    assert_eq!(sched.next_action(), path_tracer::Action::Launch(1));
}
