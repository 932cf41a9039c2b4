use vstd::prelude::*;

verus! {

/// Panel width in pixels.
pub const WIDTH: usize = 1200;

/// Panel height in pixels.
pub const HEIGHT: usize = 1600;

/// Width of the half of the panel that each controller drives.
pub const HALF_WIDTH: usize = 600;

/// Bytes in a packed frame: two pixels per byte.
pub const DISPLAY_BYTES_TOTAL: usize = 960000;

/// Bytes that each controller receives of a frame.
pub const DISPLAY_BYTES_PER_CHIP: usize = 480000;

/// A frame is streamed in chunks of this many bytes, alternating between
/// the two controllers.
pub const CHUNK_BYTES: usize = 600;

} // verus!
