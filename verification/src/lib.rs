//! Verified core of a headless Wayland compositor that feeds GStreamer.
//!
//! The library holds the decisions of the compositor and of its GStreamer
//! elements as plain, verified functions: the registry of running
//! compositors, the routing of toplevel windows between the primary and the
//! secondary output, the parsing of shader parameter strings, and the
//! outcome of frame requests. The program around it performs the I/O.

pub mod registry;
pub mod maybe_recv;
pub mod shader_params;
pub mod routing;
pub mod x11;
pub mod display;
pub mod secondary;
pub mod shader_state;
