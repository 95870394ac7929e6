//! Configuration surface consumed by the streaming core.

use vstd::prelude::*;

verus! {

/// Which signalling backend a streamer connects through, with its
/// backend-specific identity.
#[derive(Clone, Debug, PartialEq)]
pub enum SignallingServer {
    GstWebRtc { uri: String, peer_id: Option<String> },
    PixelStreaming { uri: String, streamer_id: Option<String> },
}

/// How the media transport adapts bitrate to network conditions.
#[derive(Clone, Copy, Debug, PartialEq, Eq, Structural)]
pub enum CongestionControl {
    Disabled,
    Homegrown,
    GoogleCongestionControl,
}

impl Default for CongestionControl {
    /// Congestion control is disabled unless asked for.
    fn default() -> (r: CongestionControl)
        ensures
            r == CongestionControl::Disabled,
    {
        CongestionControl::Disabled
    }
}

/// Everything a streaming camera needs from the setup layer: the signalling
/// backend, the target resolution, an optional codec caps hint, the
/// congestion-control mode, and whether remote controller events are
/// translated into host input.
#[derive(Clone, Debug, PartialEq)]
pub struct GstWebRtcSettings {
    pub signalling_server: SignallingServer,
    pub width: u32,
    pub height: u32,
    pub video_caps: Option<String>,
    pub congestion_control: Option<CongestionControl>,
    pub enable_controller: bool,
}

/// Whether a streaming camera built from these settings gets a remote
/// controller: only when asked for, and only on a backend that carries a
/// control data channel.
pub fn controller_enabled(settings: &GstWebRtcSettings) -> (r: bool)
    ensures
        r == (settings.enable_controller && settings.signalling_server
            matches SignallingServer::PixelStreaming { .. }),
{
    settings.enable_controller && match settings.signalling_server {
        SignallingServer::PixelStreaming { .. } => true,
        _ => false,
    }
}

} // verus!
