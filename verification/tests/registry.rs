use waylanddisplaycore::registry::{
    lookup_active_compositor, lookup_compositor, register_compositor, unregister_compositor,
    CompositorRegistry,
};

#[test]
fn empty_registry_finds_nothing() {
    let reg: CompositorRegistry<u32> = CompositorRegistry::new();
    assert_eq!(lookup_compositor(&reg, "wayland-1"), None);
    assert_eq!(lookup_active_compositor(&reg), None);
}

#[test]
fn lookup_after_register_gives_sender() {
    let mut reg = CompositorRegistry::new();
    register_compositor(&mut reg, "wayland-1", 10u32);
    assert_eq!(lookup_compositor(&reg, "wayland-1"), Some(&10));
    assert_eq!(lookup_active_compositor(&reg), Some(&10));
    assert_eq!(lookup_compositor(&reg, "wayland-2"), None);
}

#[test]
fn last_registered_is_active() {
    let mut reg = CompositorRegistry::new();
    register_compositor(&mut reg, "wayland-1", 1u32);
    register_compositor(&mut reg, "wayland-2", 2u32);
    assert_eq!(lookup_active_compositor(&reg), Some(&2));
    assert_eq!(lookup_compositor(&reg, "wayland-1"), Some(&1));
}

#[test]
fn register_again_replaces_sender() {
    let mut reg = CompositorRegistry::new();
    register_compositor(&mut reg, "wayland-1", 1u32);
    register_compositor(&mut reg, "wayland-2", 2u32);
    register_compositor(&mut reg, "wayland-1", 3u32);
    assert_eq!(lookup_compositor(&reg, "wayland-1"), Some(&3));
    assert_eq!(lookup_active_compositor(&reg), Some(&3));
    unregister_compositor(&mut reg, "wayland-1");
    assert_eq!(lookup_compositor(&reg, "wayland-1"), None);
    assert_eq!(lookup_active_compositor(&reg), Some(&2));
}

#[test]
fn unregister_active_falls_back_to_remaining() {
    let mut reg = CompositorRegistry::new();
    register_compositor(&mut reg, "wayland-1", 1u32);
    register_compositor(&mut reg, "wayland-2", 2u32);
    unregister_compositor(&mut reg, "wayland-2");
    assert_eq!(lookup_compositor(&reg, "wayland-2"), None);
    assert_eq!(lookup_active_compositor(&reg), Some(&1));
    unregister_compositor(&mut reg, "wayland-1");
    assert_eq!(lookup_active_compositor(&reg), None);
}

#[test]
fn unregister_other_keeps_active() {
    let mut reg = CompositorRegistry::new();
    register_compositor(&mut reg, "wayland-1", 1u32);
    register_compositor(&mut reg, "wayland-2", 2u32);
    unregister_compositor(&mut reg, "wayland-1");
    assert_eq!(lookup_active_compositor(&reg), Some(&2));
    assert_eq!(lookup_compositor(&reg, "wayland-1"), None);
}

#[test]
fn unregister_unknown_changes_nothing() {
    let mut reg = CompositorRegistry::new();
    register_compositor(&mut reg, "wayland-1", 1u32);
    unregister_compositor(&mut reg, "wayland-9");
    assert_eq!(lookup_compositor(&reg, "wayland-1"), Some(&1));
    assert_eq!(lookup_active_compositor(&reg), Some(&1));
}

#[test]
fn names_are_compared_exactly() {
    let mut reg = CompositorRegistry::new();
    register_compositor(&mut reg, "wayland-1", 1u32);
    assert_eq!(lookup_compositor(&reg, "wayland-10"), None);
    assert_eq!(lookup_compositor(&reg, "wayland-"), None);
    assert_eq!(lookup_compositor(&reg, ""), None);
}
