//! Typed messages of the signalling wire protocol.
//!
//! On the wire each message is one JSON object per websocket text frame,
//! discriminated by a `type` field; the host application performs the JSON
//! (de)serialization and hands the state machine these bare values. An
//! unknown type fails to decode and is reported, never fatal.

use vstd::prelude::*;

verus! {

/// User-defined peer connection options sent with `config`; everything in
/// it is optional, so nothing is modelled.
#[derive(Clone, Copy, Debug, PartialEq, Eq, Structural)]
pub struct PeerConnectionOptions {}

/// Sent by the server to each connecting peer to describe its setup.
#[derive(Clone, Debug, PartialEq)]
pub struct Config {
    pub peer_connection_options: Option<PeerConnectionOptions>,
    pub protocol_version: Option<String>,
}

/// Server's request that a new streamer identify itself; the flow is
/// connect, identify, endpoint id, endpoint id confirm.
#[derive(Clone, Copy, Debug, PartialEq, Eq, Structural)]
pub struct Identify {}

/// The streamer's requested endpoint id. The server may alter it for
/// uniqueness and will answer with `EndpointIdConfirm`.
#[derive(Clone, Debug, PartialEq)]
pub struct EndpointId {
    pub id: String,
    pub protocol_version: Option<String>,
}

/// The server's reply committing the streamer's final id.
#[derive(Clone, Debug, PartialEq)]
pub struct EndpointIdConfirm {
    pub committed_id: String,
}

/// Tells subscribed players that the streamer's id changed.
#[derive(Clone, Debug, PartialEq)]
pub struct StreamerIdChanged {
    pub new_id: String,
}

/// A player's request for the list of available streamers.
#[derive(Clone, Copy, Debug, PartialEq, Eq, Structural)]
pub struct ListStreamers {}

/// The server's reply to `ListStreamers`.
#[derive(Clone, Debug, PartialEq)]
pub struct StreamerList {
    pub ids: Vec<String>,
}

/// A player's request to subscribe to the given streamer.
#[derive(Clone, Debug, PartialEq)]
pub struct Subscribe {
    pub streamer_id: String,
}

/// A player's request to unsubscribe from the current stream.
#[derive(Clone, Copy, Debug, PartialEq, Eq, Structural)]
pub struct Unsubscribe {}

/// Tells a streamer that a player has subscribed to it.
#[derive(Clone, Debug, PartialEq)]
pub struct PlayerConnected {
    pub data_channel: bool,
    pub sfu: bool,
    pub player_id: String,
}

/// Tells a streamer that a player has unsubscribed or disconnected.
#[derive(Clone, Debug, PartialEq)]
pub struct PlayerDisconnected {
    pub player_id: String,
}

/// An SDP offer, tagged with the player it is for.
#[derive(Clone, Debug, PartialEq)]
pub struct Offer {
    pub sdp: String,
    pub player_id: Option<String>,
    pub sfu: Option<bool>,
}

/// The SDP answer to an `Offer`.
#[derive(Clone, Debug, PartialEq)]
pub struct Answer {
    pub sdp: String,
    pub player_id: Option<String>,
}

/// The payload of one ICE candidate: the candidate line, the media line it
/// belongs to by id and by numeric index, and an optional username fragment.
#[derive(Clone, Debug, PartialEq)]
pub struct IceCandidateData {
    pub candidate: String,
    pub sdp_mid: String,
    pub sdp_m_line_index: i32,
    pub username_fragment: Option<String>,
}

/// One ICE candidate exchanged through the server, tagged with the player it
/// belongs to.
#[derive(Clone, Debug, PartialEq)]
pub struct IceCandidate {
    pub candidate: Option<IceCandidateData>,
    pub player_id: Option<String>,
}

/// The streamer's request that the server disconnect the given player.
#[derive(Clone, Debug, PartialEq)]
pub struct DisconnectPlayer {
    pub player_id: String,
    pub reason: Option<String>,
}

/// Keepalive probe.
#[derive(Clone, Copy, Debug, PartialEq, Eq, Structural)]
pub struct Ping {
    pub time: i32,
}

/// Reply to `Ping`, echoing its time.
#[derive(Clone, Copy, Debug, PartialEq, Eq, Structural)]
pub struct Pong {
    pub time: i32,
}

/// Tells players that their streamer disconnected from the server.
#[derive(Clone, Copy, Debug, PartialEq, Eq, Structural)]
pub struct StreamerDisconnected {}

/// A player's preferred SFU quality layers.
#[derive(Clone, Debug, PartialEq)]
pub struct LayerPreference {
    pub spatial_layer: i32,
    pub temporal_layer: i32,
    pub player_id: String,
}

/// A player's request, forwarded to the SFU, for data channels to the
/// streamer.
#[derive(Clone, Copy, Debug, PartialEq, Eq, Structural)]
pub struct DataChannelRequest {}

/// Tells a player which channel ids to use with the streamer.
#[derive(Clone, Debug, PartialEq)]
pub struct PeerDataChannels {
    pub player_id: String,
    pub send_stream_id: i32,
    pub recv_stream_id: i32,
}

/// Tells the SFU that the player is ready for data channel negotiation.
#[derive(Clone, Copy, Debug, PartialEq, Eq, Structural)]
pub struct PeerDataChannelsReady {}

/// The SFU's request that the streamer open data channels for a player.
#[derive(Clone, Debug, PartialEq)]
pub struct StreamerDataChannels {
    pub sfu_id: String,
    pub send_stream_id: i32,
    pub recv_stream_id: i32,
}

/// Sent by the SFU when it starts streaming.
#[derive(Clone, Copy, Debug, PartialEq, Eq, Structural)]
pub struct StartStreaming {}

/// Sent by the SFU when it stops streaming.
#[derive(Clone, Copy, Debug, PartialEq, Eq, Structural)]
pub struct StopStreaming {}

/// Player count as the server knows it.
#[derive(Clone, Copy, Debug, PartialEq, Eq, Structural)]
pub struct PlayerCount {
    pub count: i32,
}

/// Free-form stats payload echoed on the server console.
#[derive(Clone, Debug, PartialEq)]
pub struct Stats {
    pub data: String,
}

/// One signalling message, as carried in a websocket text frame.
#[derive(Clone, Debug, PartialEq)]
pub enum Message {
    Config(Config),
    Identify(Identify),
    EndpointId(EndpointId),
    EndpointIdConfirm(EndpointIdConfirm),
    StreamerIdChanged(StreamerIdChanged),
    ListStreamers(ListStreamers),
    StreamerList(StreamerList),
    Subscribe(Subscribe),
    Unsubscribe(Unsubscribe),
    PlayerConnected(PlayerConnected),
    PlayerDisconnected(PlayerDisconnected),
    Offer(Offer),
    Answer(Answer),
    IceCandidate(IceCandidate),
    DisconnectPlayer(DisconnectPlayer),
    Ping(Ping),
    Pong(Pong),
    StreamerDisconnected(StreamerDisconnected),
    LayerPreference(LayerPreference),
    DataChannelRequest(DataChannelRequest),
    PeerDataChannels(PeerDataChannels),
    PeerDataChannelsReady(PeerDataChannelsReady),
    StreamerDataChannels(StreamerDataChannels),
    StartStreaming(StartStreaming),
    StopStreaming(StopStreaming),
    PlayerCount(PlayerCount),
    Stats(Stats),
}

} // verus!
