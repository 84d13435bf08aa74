use waylanddisplaycore::routing::OutputTarget;
use waylanddisplaycore::x11::{configure_request_geometry, fullscreen_target, WindowGeometry};

fn geo() -> WindowGeometry {
    WindowGeometry { x: 10, y: 20, width: 640, height: 480 }
}

#[test]
fn configure_keeps_location_and_takes_size() {
    let g = configure_request_geometry(geo(), Some(800), Some(600));
    assert_eq!(g, WindowGeometry { x: 10, y: 20, width: 800, height: 600 });
}

#[test]
fn configure_without_size_keeps_size() {
    assert_eq!(configure_request_geometry(geo(), None, None), geo());
    let g = configure_request_geometry(geo(), None, Some(100));
    assert_eq!(g, WindowGeometry { x: 10, y: 20, width: 640, height: 100 });
}

#[test]
fn configure_casts_like_as() {
    let g = configure_request_geometry(geo(), Some(3_000_000_000), Some(u32::MAX));
    assert_eq!(g.width, 3_000_000_000u32 as i32);
    assert_eq!(g.width, -1_294_967_296);
    assert_eq!(g.height, -1);
    let g = configure_request_geometry(geo(), Some(i32::MAX as u32), Some(0x8000_0000));
    assert_eq!(g.width, i32::MAX);
    assert_eq!(g.height, i32::MIN);
}

#[test]
fn fullscreen_uses_the_window_output() {
    assert_eq!(fullscreen_target(true), OutputTarget::Secondary);
    assert_eq!(fullscreen_target(false), OutputTarget::Primary);
}
