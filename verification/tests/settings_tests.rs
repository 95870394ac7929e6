use streamer_core::settings::{
    controller_enabled, CongestionControl, GstWebRtcSettings, SignallingServer,
};

fn base_settings(server: SignallingServer, enable_controller: bool) -> GstWebRtcSettings {
    GstWebRtcSettings {
        signalling_server: server,
        width: 1280,
        height: 720,
        video_caps: None,
        congestion_control: Some(CongestionControl::default()),
        enable_controller,
    }
}

#[test]
fn congestion_control_defaults_to_disabled() {
    assert_eq!(CongestionControl::default(), CongestionControl::Disabled);
}

#[test]
fn controller_needs_the_flag_and_a_control_channel_backend() {
    let pixel = SignallingServer::PixelStreaming {
        uri: String::from("ws://localhost:8888"),
        streamer_id: Some(String::from("cam")),
    };
    let gst = SignallingServer::GstWebRtc {
        uri: String::from("ws://localhost:8443"),
        peer_id: None,
    };
    assert!(controller_enabled(&base_settings(pixel.clone(), true)));
    assert!(!controller_enabled(&base_settings(pixel, false)));
    assert!(!controller_enabled(&base_settings(gst.clone(), true)));
    assert!(!controller_enabled(&base_settings(gst, false)));
}
