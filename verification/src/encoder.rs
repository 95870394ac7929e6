//! Boundary to the media sink that turns raw frames into an encoded stream.
//!
//! The sink (an encoder plus transport) is an external collaborator: the
//! library pushes tightly packed raw frame bytes into it and otherwise
//! treats it as opaque. Implementations live outside the library.

use vstd::prelude::*;

verus! {

/// Failure reported by a media sink: the affected frame is dropped, the
/// pipeline itself carries on.
#[derive(Clone, Debug)]
pub struct SinkError {
    pub detail: String,
}

/// A media sink accepting raw frames. `push_frame` takes one tightly packed
/// raw frame (row-major, stride-padded to the device alignment); `start`
/// idempotently begins accepting frames. Nothing is assumed of either call:
/// the delivery logic is verified for every outcome.
pub trait StreamEncoder {
    fn push_frame(&self, frame_data: &[u8]) -> Result<(), SinkError>;

    fn start(&self) -> Result<(), SinkError>;
}

} // verus!
