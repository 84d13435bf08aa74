use waylanddisplaycore::display::{FlowFailure, FrameReply, SwapFailure};
use waylanddisplaycore::registry::{register_compositor, CompositorRegistry};
use waylanddisplaycore::secondary::{
    adjust_state_change, connect_step, create_step, find_compositor, missing_compositor_message,
    ConnectStep, CreateStep, Settings, StateChangeOutcome,
};

#[test]
fn settings_property_defaults_to_empty() {
    let mut s = Settings::default();
    assert_eq!(s.compositor_name_property(), "");
    assert_eq!(s.compositor_name(), None);
    s.set_compositor_name(Some("wayland-3".to_string()));
    assert_eq!(s.compositor_name_property(), "wayland-3");
    assert_eq!(s.compositor_name(), Some("wayland-3".to_string()));
    s.set_compositor_name(None);
    assert_eq!(s.compositor_name_property(), "");
}

#[test]
fn find_by_name_or_active() {
    let mut reg = CompositorRegistry::new();
    register_compositor(&mut reg, "wayland-1", 1u32);
    register_compositor(&mut reg, "wayland-2", 2u32);
    assert_eq!(find_compositor(&reg, &Some("wayland-1".to_string())), Some(&1));
    assert_eq!(find_compositor(&reg, &None), Some(&2));
    assert_eq!(find_compositor(&reg, &Some("wayland-7".to_string())), None);
}

#[test]
fn missing_messages() {
    assert_eq!(
        missing_compositor_message(&Some("wayland-5".to_string())),
        "Could not find compositor 'wayland-5' in registry. Start the primary dual-screen app first."
    );
    assert_eq!(
        missing_compositor_message(&None),
        "No active compositor found. Start the primary dual-screen app first."
    );
}

#[test]
fn connect_steps() {
    assert_eq!(connect_step(&None, true, true), ConnectStep::Connected);
    assert_eq!(connect_step(&None, false, false), ConnectStep::Retry);
    assert_eq!(
        connect_step(&Some("x".to_string()), false, true),
        ConnectStep::Failed(
            "Could not find compositor 'x' in registry. Start the primary dual-screen app first."
                .to_string()
        )
    );
}

#[test]
fn create_steps() {
    assert!(matches!(create_step(Some(FrameReply::Frame(3u8))), CreateStep::Deliver(3)));
    assert!(matches!(
        create_step::<u8>(Some(FrameReply::SwapFailed(SwapFailure::TemporaryFailure))),
        CreateStep::Retry
    ));
    assert!(matches!(
        create_step::<u8>(Some(FrameReply::SwapFailed(SwapFailure::ContextLost))),
        CreateStep::Retry
    ));
    assert!(matches!(create_step::<u8>(None), CreateStep::Fail(FlowFailure::Eos)));
    assert!(matches!(
        create_step::<u8>(Some(FrameReply::Disconnected)),
        CreateStep::Fail(FlowFailure::Error)
    ));
}

#[test]
fn live_source_does_not_preroll() {
    assert_eq!(adjust_state_change(StateChangeOutcome::Success, true), StateChangeOutcome::NoPreroll);
    assert_eq!(adjust_state_change(StateChangeOutcome::Success, false), StateChangeOutcome::Success);
    assert_eq!(adjust_state_change(StateChangeOutcome::Async, true), StateChangeOutcome::Async);
    assert_eq!(adjust_state_change(StateChangeOutcome::Failure, true), StateChangeOutcome::Failure);
}
