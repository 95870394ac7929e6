//! Core logic of a real-time frame streaming pipeline: a fixed ring of
//! staging buffers with an acquire/release discipline, the per-tick capture
//! scheduling and readback decisions built on it, the signalling protocol
//! state machine that negotiates a WebRTC session, and the binary
//! control-channel codec for remote input events.

use vstd::prelude::*;

pub mod capture;
pub mod encoder;
pub mod input;
pub mod message;
pub mod pool;
pub mod protocol;
pub mod settings;
pub mod signalling;

verus! {

/// Alignment, in bytes, that the device requires of each row of a
/// texture-to-buffer copy.
pub const COPY_BYTES_PER_ROW_ALIGNMENT: u64 = 256;

/// Bytes per pixel of the captured frames (RGBA, one byte per channel).
pub const BYTES_PER_PIXEL: u64 = 4;

/// The raw byte size of one row of pixels, rounded up to the device's
/// required copy alignment.
pub open spec fn spec_padded_bytes_per_row(width: u64) -> int {
    ((width * BYTES_PER_PIXEL + COPY_BYTES_PER_ROW_ALIGNMENT - 1)
        / (COPY_BYTES_PER_ROW_ALIGNMENT as int)) * (COPY_BYTES_PER_ROW_ALIGNMENT as int)
}

/// Row stride used when sizing a staging buffer and when issuing the
/// device-to-buffer copy: the raw row byte size rounded up to the copy
/// alignment.
pub fn padded_bytes_per_row(width: u32) -> (r: u64)
    ensures
        r == spec_padded_bytes_per_row(width as u64),
        r >= width as u64 * BYTES_PER_PIXEL,
        r % COPY_BYTES_PER_ROW_ALIGNMENT == 0,
{
    let raw: u64 = (width as u64) * BYTES_PER_PIXEL;
    let padded: u64 = ((raw + COPY_BYTES_PER_ROW_ALIGNMENT - 1) / COPY_BYTES_PER_ROW_ALIGNMENT)
        * COPY_BYTES_PER_ROW_ALIGNMENT;
    proof {
        let a = COPY_BYTES_PER_ROW_ALIGNMENT as int;
        let q = (raw + a - 1) / a;
        assert(q * a >= raw && q * a % a == 0) by (nonlinear_arith)
            requires a == 256 && q == (raw + a - 1) / a && raw >= 0;
    }
    padded
}

} // verus!
