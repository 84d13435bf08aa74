//! Decisions of the display handle that a GStreamer source element drives:
//! how a frame request ends, which render node the compositor opens, and
//! when the cursor is drawn into a frame.
use vstd::prelude::*;

verus! {

/// Why the compositor could not hand out a frame buffer.
#[derive(Clone, Copy, Debug, PartialEq, Eq, Structural)]
pub enum SwapFailure {
    /// The buffer was swapped already; the compositor never reports this
    /// for a frame request.
    AlreadySwapped,
    /// The rendering context is gone.
    ContextLost,
    /// Rendering failed this time.
    TemporaryFailure,
}

/// The flow errors a source element reports downstream.
#[derive(Clone, Copy, Debug, PartialEq, Eq, Structural)]
pub enum FlowFailure {
    /// End of stream.
    Eos,
    /// A fatal error.
    Error,
}

/// What came back from the compositor thread for a frame request.
pub enum FrameReply<B> {
    /// A rendered frame.
    Frame(B),
    /// Rendering failed.
    SwapFailed(SwapFailure),
    /// The compositor thread dropped the request without answering.
    Disconnected,
}

/// How a frame request of the display handle ends; `reply` is `None` when
/// the request could not be sent to the compositor thread.
pub open spec fn spec_frame_result<B>(reply: Option<FrameReply<B>>) -> Result<B, FlowFailure> {
    match reply {
        None => Err(FlowFailure::Eos),
        Some(FrameReply::Frame(b)) => Ok(b),
        Some(FrameReply::SwapFailed(SwapFailure::ContextLost)) => Err(FlowFailure::Eos),
        Some(FrameReply::SwapFailed(_)) => Err(FlowFailure::Error),
        Some(FrameReply::Disconnected) => Err(FlowFailure::Error),
    }
}

/// The result of a frame request of the primary or the secondary output: the
/// frame when one came; end of stream when the request could not be sent or
/// the rendering context was lost; an error when rendering failed this time
/// or no answer came. The compositor never answers `AlreadySwapped`.
pub fn frame_result<B>(reply: Option<FrameReply<B>>) -> (res: Result<B, FlowFailure>)
    requires
        !(reply matches Some(FrameReply::SwapFailed(SwapFailure::AlreadySwapped))),
    ensures
        res == spec_frame_result(reply),
{
    match reply {
        None => Err(FlowFailure::Eos),
        Some(FrameReply::Frame(b)) => Ok(b),
        Some(FrameReply::SwapFailed(SwapFailure::ContextLost)) => Err(FlowFailure::Eos),
        Some(FrameReply::SwapFailed(_)) => Err(FlowFailure::Error),
        Some(FrameReply::Disconnected) => Err(FlowFailure::Error),
    }
}

/// The render node the compositor opens when none is given.
pub const DEFAULT_RENDER_NODE: &'static str = "/dev/dri/renderD128";

/// The render node to open: the one given, or the default node.
pub fn render_node_path(render_node: Option<String>) -> (path: String)
    ensures
        path@ == match render_node {
            Some(node) => node@,
            None => DEFAULT_RENDER_NODE@,
        },
{
    match render_node {
        Some(node) => node,
        None => String::from_str(DEFAULT_RENDER_NODE),
    }
}

/// The pointer's cursor image, as the seat reports it.
#[derive(Clone, Copy, Debug, PartialEq, Eq, Structural)]
pub enum CursorStatus {
    /// A named cursor icon.
    Named,
    /// A client surface.
    Surface,
    /// No cursor.
    Hidden,
}

/// What the primary frame draws for the cursor.
#[derive(Clone, Copy, Debug, PartialEq, Eq, Structural)]
pub enum CursorElements {
    /// The built-in cursor image, at the pointer location.
    Builtin,
    /// The client's cursor surface tree, at the pointer location.
    SurfaceTree,
    /// No cursor.
    NoCursor,
}

/// How long the cursor stays visible after the pointer last moved.
pub const CURSOR_VISIBLE_SECS: u64 = 5;

/// What the primary frame draws for the cursor: nothing once the pointer has
/// rested for `CURSOR_VISIBLE_SECS` seconds, else what the cursor status
/// asks for.
pub open spec fn spec_cursor_elements(secs_since_motion: u64, status: CursorStatus) -> CursorElements {
    if secs_since_motion < CURSOR_VISIBLE_SECS {
        match status {
            CursorStatus::Named => CursorElements::Builtin,
            CursorStatus::Surface => CursorElements::SurfaceTree,
            CursorStatus::Hidden => CursorElements::NoCursor,
        }
    } else {
        CursorElements::NoCursor
    }
}

/// Decides what the primary frame draws for the cursor. `secs_since_motion`
/// is the whole seconds since the last pointer motion (a duration is under
/// five seconds exactly when its whole seconds are).
pub fn cursor_elements(secs_since_motion: u64, status: CursorStatus) -> (res: CursorElements)
    ensures
        res == spec_cursor_elements(secs_since_motion, status),
{
    if secs_since_motion < CURSOR_VISIBLE_SECS {
        match status {
            CursorStatus::Named => CursorElements::Builtin,
            CursorStatus::Surface => CursorElements::SurfaceTree,
            CursorStatus::Hidden => CursorElements::NoCursor,
        }
    } else {
        CursorElements::NoCursor
    }
}

/// A hidden cursor, or a pointer at rest for five seconds or more, draws
/// nothing; a moving pointer with a visible cursor draws it.
pub proof fn law_cursor_hides(secs_since_motion: u64, status: CursorStatus)
    ensures
        status == CursorStatus::Hidden || secs_since_motion >= CURSOR_VISIBLE_SECS
            <==> spec_cursor_elements(secs_since_motion, status) == CursorElements::NoCursor,
{
}

/// While the pointer has moved within the last `CURSOR_VISIBLE_SECS`
/// seconds, a named cursor draws the built-in image, a surface cursor draws
/// its surface tree, and a hidden cursor draws nothing.
pub proof fn law_cursor_kind_by_status(secs_since_motion: u64)
    requires
        secs_since_motion < 5,
    ensures
        spec_cursor_elements(secs_since_motion, CursorStatus::Named) == CursorElements::Builtin,
        spec_cursor_elements(secs_since_motion, CursorStatus::Surface)
            == CursorElements::SurfaceTree,
        spec_cursor_elements(secs_since_motion, CursorStatus::Hidden) == CursorElements::NoCursor,
{
}

/// On either side of the five second mark, what is drawn depends only on
/// the cursor status, not on how many seconds passed.
pub proof fn law_cursor_ignores_seconds(a: u64, b: u64, status: CursorStatus)
    requires
        (a < 5) == (b < 5),
    ensures
        spec_cursor_elements(a, status) == spec_cursor_elements(b, status),
{
}

/// A frame request ends with the frame when one came; with end of stream
/// when it could not be sent or the context was lost; with an error when
/// rendering failed this time or no answer came.
pub proof fn law_frame_result_cases<B>(b: B)
    ensures
        spec_frame_result(Some(FrameReply::Frame(b))) == Ok::<B, FlowFailure>(b),
        spec_frame_result::<B>(None) == Err::<B, FlowFailure>(FlowFailure::Eos),
        spec_frame_result::<B>(Some(FrameReply::SwapFailed(SwapFailure::ContextLost)))
            == Err::<B, FlowFailure>(FlowFailure::Eos),
        spec_frame_result::<B>(Some(FrameReply::SwapFailed(SwapFailure::TemporaryFailure)))
            == Err::<B, FlowFailure>(FlowFailure::Error),
        spec_frame_result::<B>(Some(FrameReply::Disconnected)) == Err::<B, FlowFailure>(
            FlowFailure::Error,
        ),
{
}

} // verus!
