//! Bridge between a callback-driven screen-capture engine and a per-connection
//! network write loop: frame buffers, the frame channel that crosses from the
//! engine's thread to the connection's task, the capture-session lifecycle, and
//! the decision logic of the listener and of each connection handler.

pub mod channel;
pub mod frames;
pub mod handler;
pub mod listener;

use vstd::prelude::*;

verus! {

/// Capture width in pixels; fixed for the whole process, not negotiated per
/// client.
pub const CAPTURE_WIDTH: u32 = 1920;

/// Capture height in pixels; fixed for the whole process.
pub const CAPTURE_HEIGHT: u32 = 1080;

/// Capture frame rate in frames per second; fixed for the whole process.
pub const CAPTURE_FPS: u32 = 60;

/// The local TCP port the listener binds.
pub const LISTEN_PORT: u16 = 18999;

} // verus!
