use signaling::media::{deneme, on_track, LateAction, LateTracks, PacketEvent, Relay, RelayAction};
use signaling::registry::{Address, Registry};
use signaling::settings::{
    add_tranceiever, audio_track, create_peer_connection, video_track, Direction,
    IceTransportPolicy, MediaKind, TransceiverSettings,
};

#[test]
fn each_packet_is_sent_back_before_the_next_is_read() {
    let (relay, action) = on_track();
    assert_eq!((relay, action), (Relay::Reading, RelayAction::Read));
    let (relay, action) = relay.advance(PacketEvent::Done);
    assert_eq!(action, RelayAction::Write);
    let (relay, action) = relay.advance(PacketEvent::Done);
    assert_eq!(action, RelayAction::Read);
    let (relay, action) = relay.advance(PacketEvent::Done);
    assert_eq!(action, RelayAction::Write);
    let (relay, action) = relay.advance(PacketEvent::Failed);
    assert_eq!((relay, action), (Relay::Stopped, RelayAction::Report));
    assert_eq!(relay.advance(PacketEvent::Done), (Relay::Stopped, RelayAction::Stop));
}

#[test]
fn a_relay_stops_in_silence_when_the_track_ends() {
    let (relay, _) = on_track();
    assert_eq!(relay.advance(PacketEvent::Failed), (Relay::Stopped, RelayAction::Stop));
}

#[test]
fn late_tracks_are_added_after_three_seconds() {
    let (state, action) = deneme();
    assert!(matches!(action, LateAction::Sleep(3)));
    let (state, action) = state.advance(true);
    match action {
        LateAction::AddTrack(track) => assert_eq!(track.mime_type, "audio/opus"),
        other => panic!("{:?}", other),
    }
    let (state, action) = state.advance(true);
    match action {
        LateAction::AddTrack(track) => assert_eq!(track.mime_type, "video/vp8"),
        other => panic!("{:?}", other),
    }
    let (state, action) = state.advance(true);
    assert!(matches!(action, LateAction::Report));
    assert_eq!(state, LateTracks::Finished);
    assert!(matches!(state.advance(true).1, LateAction::Nothing));
}

#[test]
fn a_late_track_that_fails_is_the_last() {
    let (state, _) = deneme();
    let (state, _) = state.advance(true);
    let (state, action) = state.advance(false);
    assert!(matches!(action, LateAction::Abort));
    assert_eq!(state, LateTracks::Aborted);
    assert!(matches!(state.advance(true).1, LateAction::Nothing));
}

#[test]
fn tracks_have_their_settings() {
    let video = video_track();
    assert_eq!(video.mime_type, "video/vp8");
    assert_eq!(video.clock_rate, 90000);
    assert_eq!(video.channels, 0);
    assert_eq!(video.sdp_fmtp_line, "");
    assert!(video.rtcp_feedback.is_empty());
    assert_eq!(video.id, "video_01");
    assert_eq!(video.stream_id, "video_stream_01");
    let audio = audio_track();
    assert_eq!(audio.mime_type, "audio/opus");
    assert_eq!(audio.clock_rate, 48000);
    assert_eq!(audio.channels, 2);
    assert_eq!(audio.sdp_fmtp_line, "");
    assert!(audio.rtcp_feedback.is_empty());
    assert_eq!(audio.id, "audio_01");
    assert_eq!(audio.stream_id, "audio_stream_01");
}

#[test]
fn peer_connections_have_their_settings() {
    let settings = create_peer_connection();
    assert_eq!(
        settings.ice_servers,
        vec![
            vec!["stun:stun.cloudflare.com:3478".to_string()],
            vec!["stun:stun.l.google.com:19302".to_string()],
        ]
    );
    assert_eq!(settings.ice_transport_policy, IceTransportPolicy::All);
}

#[test]
fn a_transceiver_is_added_where_there_is_a_peer_connection() {
    let addr = Address::V4 { ip: 1, port: 1 };
    let mut peers = Registry::new();
    assert!(add_tranceiever(&peers, &addr).is_none());
    peers.insert(addr, ());
    assert_eq!(
        add_tranceiever(&peers, &addr),
        Some(TransceiverSettings {
            kind: MediaKind::Video,
            direction: Direction::Sendonly,
            ssrc: 11111111,
        })
    );
}
