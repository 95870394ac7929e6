use streamer_core::protocol::{
    Answer, EndpointIdConfirm, IceCandidate, IceCandidateData, Identify, Message, Offer,
    PlayerConnected, PlayerDisconnected,
};
use streamer_core::signalling::{
    ErrorReason, SignalAction, Signaller, SignallerError, SignallerStatus,
};

fn connected_signaller() -> Signaller {
    let mut signaller = Signaller::default();
    signaller.start();
    signaller.connect_established();
    signaller
}

#[test]
fn fresh_signaller_is_idle_with_the_default_uri() {
    let signaller = Signaller::default();
    assert_eq!(signaller.status(), SignallerStatus::Idle);
    assert_eq!(signaller.uri(), "ws://127.0.0.1:8888");
    assert_eq!(signaller.streamer_id(), None);
    assert_eq!(signaller.committed_streamer_id(), None);
}

#[test]
fn set_uri_accepts_urls_and_rejects_garbage() {
    let mut signaller = Signaller::default();
    assert_eq!(signaller.set_uri("wss://stream.example:8443/signal"), Ok(()));
    assert_eq!(signaller.uri(), "wss://stream.example:8443/signal");
    assert_eq!(signaller.set_uri("not a url"), Err(SignallerError::InvalidUri));
    // A rejected URI leaves the stored one alone.
    assert_eq!(signaller.uri(), "wss://stream.example:8443/signal");
}

#[test]
fn start_spawns_the_connect_task() {
    let mut signaller = Signaller::default();
    let actions = signaller.start();
    assert!(matches!(actions.as_slice(), [SignalAction::SpawnConnect]));
    assert_eq!(signaller.status(), SignallerStatus::Connecting);
}

#[test]
fn handshake_spawns_send_and_receive_loops() {
    let mut signaller = Signaller::default();
    signaller.start();
    let actions = signaller.connect_established();
    assert!(matches!(
        actions.as_slice(),
        [SignalAction::SpawnSendLoop, SignalAction::SpawnReceiveLoop]
    ));
    assert_eq!(signaller.status(), SignallerStatus::Connected);
}

#[test]
fn connect_failure_reports_and_enters_the_error_state() {
    let mut signaller = Signaller::default();
    signaller.start();
    let actions = signaller.connect_failed(String::from("timed out after 20s"));
    assert!(matches!(
        actions.as_slice(),
        [SignalAction::EmitError { reason: ErrorReason::ConnectFailed, .. }]
    ));
    assert_eq!(signaller.status(), SignallerStatus::Error);
}

#[test]
fn identify_is_answered_with_the_requested_id() {
    let mut signaller = connected_signaller();
    signaller.set_streamer_id(Some(String::from("camera-1")));
    let actions = signaller.handle_message(Message::Identify(Identify {}));
    match actions.as_slice() {
        [SignalAction::Send(Message::EndpointId(e))] => {
            assert_eq!(e.id, "camera-1");
            assert_eq!(e.protocol_version, None);
        }
        other => panic!("unexpected actions: {:?}", other),
    }
}

#[test]
fn identify_with_no_configured_id_sends_the_empty_string() {
    let mut signaller = connected_signaller();
    let actions = signaller.handle_message(Message::Identify(Identify {}));
    match actions.as_slice() {
        [SignalAction::Send(Message::EndpointId(e))] => assert_eq!(e.id, ""),
        other => panic!("unexpected actions: {:?}", other),
    }
}

#[test]
fn endpoint_id_confirm_stores_exactly_the_committed_id() {
    // Confirm while Connected: the committed id is stored verbatim, whatever
    // id was requested, and the machine advances to Identified.
    let mut signaller = connected_signaller();
    signaller.set_streamer_id(Some(String::from("requested-name")));
    let actions = signaller.handle_message(Message::EndpointIdConfirm(EndpointIdConfirm {
        committed_id: String::from("foo"),
    }));
    assert!(actions.is_empty());
    assert_eq!(signaller.committed_streamer_id(), Some(String::from("foo")));
    assert_eq!(signaller.status(), SignallerStatus::Identified);

    // Confirm again while Identified: the id is replaced, the state keeps
    // its place.
    signaller.handle_message(Message::EndpointIdConfirm(EndpointIdConfirm {
        committed_id: String::from("foo-2"),
    }));
    assert_eq!(signaller.committed_streamer_id(), Some(String::from("foo-2")));
    assert_eq!(signaller.status(), SignallerStatus::Identified);
}

#[test]
fn player_connected_requests_a_session_and_records_it() {
    let mut signaller = connected_signaller();
    signaller.handle_message(Message::EndpointIdConfirm(EndpointIdConfirm {
        committed_id: String::from("cam"),
    }));
    let actions = signaller.handle_message(Message::PlayerConnected(PlayerConnected {
        data_channel: true,
        sfu: false,
        player_id: String::from("player-7"),
    }));
    match actions.as_slice() {
        [SignalAction::EmitSessionRequested { player_id }] => assert_eq!(player_id, "player-7"),
        other => panic!("unexpected actions: {:?}", other),
    }
    assert!(signaller.has_session(&String::from("player-7")));
    assert_eq!(signaller.status(), SignallerStatus::Negotiating);
}

#[test]
fn player_disconnected_ends_and_removes_the_session() {
    let mut signaller = connected_signaller();
    signaller.handle_message(Message::PlayerConnected(PlayerConnected {
        data_channel: true,
        sfu: false,
        player_id: String::from("p1"),
    }));
    let actions = signaller.handle_message(Message::PlayerDisconnected(PlayerDisconnected {
        player_id: String::from("p1"),
    }));
    match actions.as_slice() {
        [SignalAction::EmitSessionEnded { player_id }] => assert_eq!(player_id, "p1"),
        other => panic!("unexpected actions: {:?}", other),
    }
    assert!(!signaller.has_session(&String::from("p1")));
}

#[test]
fn inbound_offer_is_handed_to_the_media_layer() {
    let mut signaller = connected_signaller();
    let actions = signaller.handle_message(Message::Offer(Offer {
        sdp: String::from("v=0..."),
        player_id: Some(String::from("p1")),
        sfu: None,
    }));
    match actions.as_slice() {
        [SignalAction::EmitSessionDescription { player_id, sdp, is_offer }] => {
            assert_eq!(player_id, "p1");
            assert_eq!(sdp, "v=0...");
            assert!(is_offer);
        }
        other => panic!("unexpected actions: {:?}", other),
    }
    // An offer without a player id goes nowhere.
    let actions = signaller.handle_message(Message::Offer(Offer {
        sdp: String::from("v=0..."),
        player_id: None,
        sfu: None,
    }));
    assert!(actions.is_empty());
}

#[test]
fn inbound_answer_is_handed_to_the_media_layer() {
    let mut signaller = connected_signaller();
    let actions = signaller.handle_message(Message::Answer(Answer {
        sdp: String::from("v=0..."),
        player_id: Some(String::from("p2")),
    }));
    match actions.as_slice() {
        [SignalAction::EmitSessionDescription { player_id, is_offer, .. }] => {
            assert_eq!(player_id, "p2");
            assert!(!is_offer);
        }
        other => panic!("unexpected actions: {:?}", other),
    }
}

#[test]
fn inbound_ice_candidate_is_forwarded_by_index() {
    let mut signaller = connected_signaller();
    let actions = signaller.handle_message(Message::IceCandidate(IceCandidate {
        player_id: Some(String::from("p1")),
        candidate: Some(IceCandidateData {
            candidate: String::from("candidate:1 1 UDP ..."),
            sdp_mid: String::from("video0"),
            sdp_m_line_index: 2,
            username_fragment: None,
        }),
    }));
    match actions.as_slice() {
        [SignalAction::EmitHandleIce { player_id, line_index, mid, candidate }] => {
            assert_eq!(player_id, "p1");
            assert_eq!(*line_index, 2);
            assert_eq!(mid, "video0");
            assert_eq!(candidate, "candidate:1 1 UDP ...");
        }
        other => panic!("unexpected actions: {:?}", other),
    }
    // A negative media line index cannot be forwarded and is dropped.
    let actions = signaller.handle_message(Message::IceCandidate(IceCandidate {
        player_id: Some(String::from("p1")),
        candidate: Some(IceCandidateData {
            candidate: String::from("candidate:2 ..."),
            sdp_mid: String::new(),
            sdp_m_line_index: -1,
            username_fragment: None,
        }),
    }));
    assert!(actions.is_empty());
}

#[test]
fn send_sdp_records_the_media_mids_in_order() {
    let mut signaller = connected_signaller();
    let media_mids = vec![Some(String::from("video0")), None, Some(String::from("audio0"))];
    let actions = signaller.send_sdp(
        &String::from("p1"),
        true,
        String::from("v=0 offer"),
        &media_mids,
    );
    match actions.as_slice() {
        [SignalAction::Send(Message::Offer(o))] => {
            assert_eq!(o.sdp, "v=0 offer");
            assert_eq!(o.player_id, Some(String::from("p1")));
            assert_eq!(o.sfu, None);
        }
        other => panic!("unexpected actions: {:?}", other),
    }
    assert_eq!(signaller.mid_for_line(0), "video0");
    assert_eq!(signaller.mid_for_line(1), "");
    assert_eq!(signaller.mid_for_line(2), "audio0");
}

#[test]
fn send_sdp_answer_wraps_the_sdp_as_an_answer() {
    let mut signaller = connected_signaller();
    let actions = signaller.send_sdp(&String::from("p9"), false, String::from("v=0 answer"), &vec![]);
    match actions.as_slice() {
        [SignalAction::Send(Message::Answer(a))] => {
            assert_eq!(a.sdp, "v=0 answer");
            assert_eq!(a.player_id, Some(String::from("p9")));
        }
        other => panic!("unexpected actions: {:?}", other),
    }
}

#[test]
fn ice_line_index_beyond_recorded_mids_falls_back_to_the_empty_string() {
    let mut signaller = connected_signaller();
    let media_mids = vec![Some(String::from("video0")), Some(String::from("audio0"))];
    signaller.send_sdp(&String::from("p1"), true, String::from("v=0"), &media_mids);
    let actions = signaller.add_ice(&String::from("p1"), String::from("candidate:9 ..."), 5);
    match actions.as_slice() {
        [SignalAction::Send(Message::IceCandidate(ic))] => {
            let data = ic.candidate.as_ref().expect("candidate payload");
            assert_eq!(data.sdp_mid, "");
            assert_eq!(data.sdp_m_line_index, 5);
            assert_eq!(data.candidate, "candidate:9 ...");
            assert_eq!(ic.player_id, Some(String::from("p1")));
        }
        other => panic!("unexpected actions: {:?}", other),
    }
    assert_eq!(signaller.mid_for_line(5), "");
}

#[test]
fn ice_line_index_in_range_uses_the_recorded_mid() {
    let mut signaller = connected_signaller();
    let media_mids = vec![Some(String::from("video0")), Some(String::from("audio0"))];
    signaller.send_sdp(&String::from("p1"), true, String::from("v=0"), &media_mids);
    let actions = signaller.add_ice(&String::from("p1"), String::from("candidate:1 ..."), 1);
    match actions.as_slice() {
        [SignalAction::Send(Message::IceCandidate(ic))] => {
            assert_eq!(ic.candidate.as_ref().unwrap().sdp_mid, "audio0");
        }
        other => panic!("unexpected actions: {:?}", other),
    }
}

#[test]
fn end_session_disconnects_the_player_and_drops_the_session() {
    let mut signaller = connected_signaller();
    signaller.handle_message(Message::PlayerConnected(PlayerConnected {
        data_channel: false,
        sfu: false,
        player_id: String::from("p1"),
    }));
    let actions = signaller.end_session(&String::from("p1"));
    match actions.as_slice() {
        [SignalAction::Send(Message::DisconnectPlayer(d))] => {
            assert_eq!(d.player_id, "p1");
            assert_eq!(d.reason, None);
        }
        other => panic!("unexpected actions: {:?}", other),
    }
    assert!(!signaller.has_session(&String::from("p1")));
}

#[test]
fn stop_joins_the_inflight_send_task_before_completing() {
    let mut signaller = connected_signaller();
    let actions = signaller.stop();
    assert!(matches!(
        actions.as_slice(),
        [
            SignalAction::AbortConnectTask,
            SignalAction::CloseSender,
            SignalAction::JoinSendTask,
            SignalAction::AbortReceiveTask,
        ]
    ));
    assert_eq!(signaller.status(), SignallerStatus::Closed);
}

#[test]
fn stop_is_idempotent() {
    let mut signaller = connected_signaller();
    signaller.handle_message(Message::PlayerConnected(PlayerConnected {
        data_channel: false,
        sfu: false,
        player_id: String::from("p1"),
    }));
    signaller.stop();
    assert!(!signaller.has_session(&String::from("p1")));
    let again = signaller.stop();
    assert!(again.is_empty());
    assert_eq!(signaller.status(), SignallerStatus::Closed);
}

#[test]
fn stop_before_any_connection_does_nothing_but_close() {
    let mut signaller = Signaller::default();
    let actions = signaller.stop();
    assert!(actions.is_empty());
    assert_eq!(signaller.status(), SignallerStatus::Closed);
}

#[test]
fn malformed_frames_report_but_keep_receiving() {
    let signaller = connected_signaller();
    let (actions, keep_going) = signaller.unparseable_frame(String::from("{\"type\":\"wat\"}"));
    assert!(keep_going);
    assert!(matches!(
        actions.as_slice(),
        [SignalAction::EmitError { reason: ErrorReason::UnknownServerMessage, .. }]
    ));
}

#[test]
fn close_and_transport_errors_stop_receiving() {
    let signaller = connected_signaller();
    let (actions, keep_going) = signaller.connection_closed();
    assert!(actions.is_empty());
    assert!(!keep_going);
    let (actions, keep_going) = signaller.transport_error(String::from("connection reset"));
    assert!(!keep_going);
    assert!(matches!(
        actions.as_slice(),
        [SignalAction::EmitError { reason: ErrorReason::Transport, .. }]
    ));
}

#[test]
fn unhandled_messages_are_ignored() {
    let mut signaller = connected_signaller();
    let actions = signaller.handle_message(Message::Ping(streamer_core::protocol::Ping { time: 5 }));
    assert!(actions.is_empty());
    assert_eq!(signaller.status(), SignallerStatus::Connected);
}

#[test]
fn ice_connected_moves_negotiating_to_streaming() {
    let mut signaller = connected_signaller();
    signaller.handle_message(Message::EndpointIdConfirm(EndpointIdConfirm {
        committed_id: String::from("cam"),
    }));
    signaller.handle_message(Message::PlayerConnected(PlayerConnected {
        data_channel: false,
        sfu: false,
        player_id: String::from("p1"),
    }));
    assert_eq!(signaller.status(), SignallerStatus::Negotiating);
    signaller.ice_connected();
    assert_eq!(signaller.status(), SignallerStatus::Streaming);
}
