use waylanddisplaycore::shader_state::ShaderGeometry;

#[test]
fn new_geometry_starts_at_frame_zero() {
    let g = ShaderGeometry::new(1280, 720);
    assert_eq!((g.width(), g.height(), g.frame_count()), (1280, 720, 0));
}

#[test]
fn resize_only_on_change() {
    let mut g = ShaderGeometry::new(1280, 720);
    assert!(!g.needs_resize(1280, 720));
    assert!(g.needs_resize(1920, 720));
    assert!(g.needs_resize(1280, 1080));
    g.set_size(1920, 1080);
    assert!(!g.needs_resize(1920, 1080));
}

#[test]
fn frame_counter_counts_and_keeps_size() {
    let mut g = ShaderGeometry::new(10, 20);
    g.advance_frame();
    g.advance_frame();
    assert_eq!(g.frame_count(), 2);
    g.set_size(30, 40);
    assert_eq!(g.frame_count(), 2);
}
