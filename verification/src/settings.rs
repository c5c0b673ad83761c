//! With what parameters connections, tracks and transceivers are made.

use vstd::prelude::*;

use crate::registry::{Address, Registry};

verus! {

/// Which candidates a peer connection may use.
#[derive(Clone, Copy, Debug, PartialEq, Eq, Structural)]
pub enum IceTransportPolicy {
    All,
    Relay,
}

/// The configuration of a peer connection.
#[derive(Debug)]
pub struct PeerSettings {
    /// The addresses of each server that helps to find candidates.
    pub ice_servers: Vec<Vec<String>>,
    pub ice_transport_policy: IceTransportPolicy,
}

/// The configuration of a peer connection, seen as a mathematical value.
pub struct PeerSettingsView {
    pub ice_servers: Seq<Seq<Seq<char>>>,
    pub ice_transport_policy: IceTransportPolicy,
}

/// Strings, seen as mathematical values.
pub open spec fn texts_view(texts: Seq<String>) -> Seq<Seq<char>> {
    texts.map_values(|s: String| s@)
}

impl View for PeerSettings {
    type V = PeerSettingsView;

    open spec fn view(&self) -> PeerSettingsView {
        PeerSettingsView {
            ice_servers: self.ice_servers@.map_values(|urls: Vec<String>| texts_view(urls@)),
            ice_transport_policy: self.ice_transport_policy,
        }
    }
}

/// A track that the server sends.
#[derive(Debug)]
pub struct TrackSettings {
    pub mime_type: String,
    pub clock_rate: u32,
    pub channels: u16,
    /// The format parameters of the codec.
    pub sdp_fmtp_line: String,
    /// The kinds of feedback on the track, type and parameter.
    pub rtcp_feedback: Vec<(String, String)>,
    pub id: String,
    pub stream_id: String,
}

/// A track, seen as a mathematical value.
pub struct TrackSettingsView {
    pub mime_type: Seq<char>,
    pub clock_rate: u32,
    pub channels: u16,
    pub sdp_fmtp_line: Seq<char>,
    pub rtcp_feedback: Seq<(Seq<char>, Seq<char>)>,
    pub id: Seq<char>,
    pub stream_id: Seq<char>,
}

impl View for TrackSettings {
    type V = TrackSettingsView;

    open spec fn view(&self) -> TrackSettingsView {
        TrackSettingsView {
            mime_type: self.mime_type@,
            clock_rate: self.clock_rate,
            channels: self.channels,
            sdp_fmtp_line: self.sdp_fmtp_line@,
            rtcp_feedback: self.rtcp_feedback@.map_values(|f: (String, String)| (f.0@, f.1@)),
            id: self.id@,
            stream_id: self.stream_id@,
        }
    }
}

/// What a transceiver carries.
#[derive(Clone, Copy, Debug, PartialEq, Eq, Structural)]
pub enum MediaKind {
    Audio,
    Video,
}

/// Which way a transceiver carries it.
#[derive(Clone, Copy, Debug, PartialEq, Eq, Structural)]
pub enum Direction {
    Sendrecv,
    Sendonly,
    Recvonly,
    Inactive,
}

/// A transceiver that the server adds to a peer connection.
#[derive(Clone, Copy, Debug, PartialEq, Eq, Structural)]
pub struct TransceiverSettings {
    pub kind: MediaKind,
    pub direction: Direction,
    /// The source of the one stream that is sent.
    pub ssrc: u32,
}

/// The configuration of every peer connection: two STUN servers, all candidates.
pub open spec fn peer_settings() -> PeerSettingsView {
    PeerSettingsView {
        ice_servers: seq![
            seq!["stun:stun.cloudflare.com:3478"@],
            seq!["stun:stun.l.google.com:19302"@],
        ],
        ice_transport_policy: IceTransportPolicy::All,
    }
}

/// The video track of a peer connection.
pub open spec fn video_settings() -> TrackSettingsView {
    TrackSettingsView {
        mime_type: "video/vp8"@,
        clock_rate: 90000,
        channels: 0,
        sdp_fmtp_line: ""@,
        rtcp_feedback: Seq::<(Seq<char>, Seq<char>)>::empty(),
        id: "video_01"@,
        stream_id: "video_stream_01"@,
    }
}

/// The audio track of a peer connection.
pub open spec fn audio_settings() -> TrackSettingsView {
    TrackSettingsView {
        mime_type: "audio/opus"@,
        clock_rate: 48000,
        channels: 2,
        sdp_fmtp_line: ""@,
        rtcp_feedback: Seq::<(Seq<char>, Seq<char>)>::empty(),
        id: "audio_01"@,
        stream_id: "audio_stream_01"@,
    }
}

/// The transceiver that is added on request.
pub open spec fn transceiver_settings() -> TransceiverSettings {
    TransceiverSettings {
        kind: MediaKind::Video,
        direction: Direction::Sendonly,
        ssrc: 11111111,
    }
}

/// The configuration with which a peer connection is created.
pub fn create_peer_connection() -> (settings: PeerSettings)
    ensures
        settings@ == peer_settings(),
{
    let first = vec!["stun:stun.cloudflare.com:3478".to_owned()];
    let second = vec!["stun:stun.l.google.com:19302".to_owned()];
    proof {
        assert(texts_view(first@) =~= seq!["stun:stun.cloudflare.com:3478"@]);
        assert(texts_view(second@) =~= seq!["stun:stun.l.google.com:19302"@]);
    }
    let settings = PeerSettings {
        ice_servers: vec![first, second],
        ice_transport_policy: IceTransportPolicy::All,
    };
    proof {
        assert(settings@.ice_servers =~= peer_settings().ice_servers);
    }
    settings
}

/// The video track to add to a peer connection.
pub fn video_track() -> (track: TrackSettings)
    ensures
        track@ == video_settings(),
{
    let track = TrackSettings {
        mime_type: "video/vp8".to_owned(),
        clock_rate: 90000,
        channels: 0,
        sdp_fmtp_line: "".to_owned(),
        rtcp_feedback: Vec::new(),
        id: "video_01".to_owned(),
        stream_id: "video_stream_01".to_owned(),
    };
    proof {
        assert(track@.rtcp_feedback =~= video_settings().rtcp_feedback);
    }
    track
}

/// The audio track to add to a peer connection.
pub fn audio_track() -> (track: TrackSettings)
    ensures
        track@ == audio_settings(),
{
    let track = TrackSettings {
        mime_type: "audio/opus".to_owned(),
        clock_rate: 48000,
        channels: 2,
        sdp_fmtp_line: "".to_owned(),
        rtcp_feedback: Vec::new(),
        id: "audio_01".to_owned(),
        stream_id: "audio_stream_01".to_owned(),
    };
    proof {
        assert(track@.rtcp_feedback =~= audio_settings().rtcp_feedback);
    }
    track
}

/// The transceiver to add to the client's peer connection; none for a client
/// that has no peer connection.
pub fn add_tranceiever<P>(webrtc_clients: &Registry<P>, addr: &Address) -> (settings: Option<
    TransceiverSettings,
>)
    ensures
        settings == if webrtc_clients@.dom().contains(*addr) {
            Some(transceiver_settings())
        } else {
            None
        },
{
    if webrtc_clients.contains(addr) {
        Some(
            TransceiverSettings {
                kind: MediaKind::Video,
                direction: Direction::Sendonly,
                ssrc: 11111111,
            },
        )
    } else {
        None
    }
}

} // verus!
