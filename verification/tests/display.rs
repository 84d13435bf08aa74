use waylanddisplaycore::display::{
    cursor_elements, frame_result, render_node_path, CursorElements, CursorStatus, FlowFailure,
    FrameReply, SwapFailure, DEFAULT_RENDER_NODE,
};

#[test]
fn frame_delivers_buffer() {
    assert_eq!(frame_result(Some(FrameReply::Frame(7u8))), Ok(7));
}

#[test]
fn frame_unsendable_is_eos() {
    assert_eq!(frame_result::<u8>(None), Err(FlowFailure::Eos));
}

#[test]
fn frame_context_lost_is_eos() {
    let r = frame_result::<u8>(Some(FrameReply::SwapFailed(SwapFailure::ContextLost)));
    assert_eq!(r, Err(FlowFailure::Eos));
}

#[test]
fn frame_temporary_failure_is_error() {
    let r = frame_result::<u8>(Some(FrameReply::SwapFailed(SwapFailure::TemporaryFailure)));
    assert_eq!(r, Err(FlowFailure::Error));
}

#[test]
fn frame_without_answer_is_error() {
    assert_eq!(frame_result::<u8>(Some(FrameReply::Disconnected)), Err(FlowFailure::Error));
}

#[test]
fn render_node_default() {
    assert_eq!(render_node_path(None), "/dev/dri/renderD128");
    assert_eq!(DEFAULT_RENDER_NODE, "/dev/dri/renderD128");
    assert_eq!(render_node_path(Some("/dev/dri/renderD129".to_string())), "/dev/dri/renderD129");
}

#[test]
fn cursor_drawn_while_pointer_moves() {
    assert_eq!(cursor_elements(0, CursorStatus::Named), CursorElements::Builtin);
    assert_eq!(cursor_elements(4, CursorStatus::Surface), CursorElements::SurfaceTree);
    assert_eq!(cursor_elements(4, CursorStatus::Hidden), CursorElements::NoCursor);
}

#[test]
fn cursor_hidden_after_five_seconds() {
    assert_eq!(cursor_elements(5, CursorStatus::Named), CursorElements::NoCursor);
    assert_eq!(cursor_elements(u64::MAX, CursorStatus::Surface), CursorElements::NoCursor);
}
