use signaling::json::{read_json, Json};
use signaling::negotiation::{
    candidate_notice, gather_and_send_candidates, process_answer_message,
    process_icecandidate_message, process_offer_message, send_offer, set_answer, AnswerAction,
    CandidateInit, CandidateRefused, LocalCandidate, Negotiation, OfferAction, OfferStage,
    Outcome, OwnOfferAction, Stage,
};
use signaling::registry::{Address, Registry};
use webrtc::peer_connection::sdp::sdp_type::RTCSdpType;
use webrtc::peer_connection::sdp::session_description::RTCSessionDescription;

const SDP: &str = "v=0\r\no=- 1 1 IN IP4 127.0.0.1\r\ns=-\r\nt=0 0\r\n";

const OTHER_SDP: &str = "v=0\r\no=- 2 2 IN IP4 127.0.0.1\r\ns=-\r\nt=0 0\r\n";

fn client() -> Address {
    Address::V4 { ip: 0x7f000001, port: 4000 }
}

fn registry(addresses: &[Address]) -> Registry<()> {
    let mut registry = Registry::new();
    for addr in addresses {
        registry.insert(*addr, ());
    }
    registry
}

fn signal(msg_type: &str, content: &str) -> Json {
    Json::Object(vec![
        ("msg_type".to_string(), Json::Text(msg_type.to_string())),
        ("content".to_string(), Json::Text(content.to_string())),
    ])
}

#[test]
fn a_new_client_is_answered_step_by_step() {
    let peers = registry(&[]);
    let clients = registry(&[client()]);
    let (n, action) = process_offer_message(&signal("Offer", SDP), &peers, &client()).unwrap();
    match action {
        OfferAction::CreatePeer(settings) => assert_eq!(settings.ice_servers.len(), 2),
        other => panic!("{:?}", other),
    }
    let (n, action) = n.advance(Outcome::Done, &clients);
    match action {
        OfferAction::AddTrack(track) => assert_eq!(track.id, "video_01"),
        other => panic!("{:?}", other),
    }
    let (n, action) = n.advance(Outcome::Done, &clients);
    assert!(matches!(action, OfferAction::WatchCandidates(addr) if addr == client()));
    let (n, action) = n.advance(Outcome::Done, &clients);
    assert!(matches!(action, OfferAction::StorePeer(addr) if addr == client()));
    let (n, action) = n.advance(Outcome::Done, &clients);
    assert!(matches!(action, OfferAction::ForwardTrack));
    let (n, action) = n.advance(Outcome::Done, &clients);
    match action {
        OfferAction::SetRemote(description) => {
            assert_eq!(description.sdp_type, RTCSdpType::Offer);
            assert_eq!(description.sdp, SDP);
        }
        other => panic!("{:?}", other),
    }
    let (n, action) = n.advance(Outcome::Done, &clients);
    assert!(matches!(action, OfferAction::CreateAnswer));
    let answer = RTCSessionDescription::answer(OTHER_SDP.to_string()).unwrap();
    let (n, action) = n.advance(Outcome::Created(answer), &clients);
    match action {
        OfferAction::SetLocal(answer) => {
            assert_eq!(answer.sdp_type, RTCSdpType::Answer);
            assert_eq!(answer.sdp, OTHER_SDP);
        }
        other => panic!("{:?}", other),
    }
    let (n, action) = n.advance(Outcome::Done, &clients);
    assert!(matches!(action, OfferAction::ReadLocal));
    let (n, action) = n.advance(Outcome::Described("v=0\n".to_string()), &clients);
    match action {
        OfferAction::Send(outgoing) => {
            assert_eq!(outgoing.to, client());
            assert_eq!(outgoing.text, "{\"msg_type\":\"Answer\",\"content\":\"v=0\\n\"}");
        }
        other => panic!("{:?}", other),
    }
    assert_eq!(n.stage, Stage::Finished);
    let (_, action) = n.advance(Outcome::Described("again".to_string()), &clients);
    assert!(matches!(action, OfferAction::Nothing));
}

#[test]
fn the_peer_connection_of_a_known_client_is_used_again() {
    let peers = registry(&[client()]);
    let clients = registry(&[client()]);
    let (n, action) = process_offer_message(&signal("Offer", SDP), &peers, &client()).unwrap();
    assert!(matches!(action, OfferAction::SetRemote(_)));
    let (n, action) = n.advance(Outcome::Done, &clients);
    assert!(matches!(action, OfferAction::CreateAnswer));
    let answer = RTCSessionDescription::answer(OTHER_SDP.to_string()).unwrap();
    let (n, action) = n.advance(Outcome::Created(answer), &clients);
    match action {
        OfferAction::SetLocal(answer) => {
            assert_eq!(answer.sdp_type, RTCSdpType::Answer);
            assert_eq!(answer.sdp, OTHER_SDP);
        }
        other => panic!("{:?}", other),
    }
    let (n, action) = n.advance(Outcome::Done, &clients);
    assert!(matches!(action, OfferAction::ReadLocal));
    let (_, action) = n.advance(Outcome::Described("s".to_string()), &clients);
    assert!(matches!(action, OfferAction::Send(_)));
}

#[test]
fn an_offer_that_is_no_description_is_given_up() {
    let peers = registry(&[client()]);
    let (n, action) =
        process_offer_message(&signal("Offer", "no sdp"), &peers, &client()).unwrap();
    assert!(matches!(action, OfferAction::Abort));
    assert_eq!(n.stage, Stage::Aborted);

    let n = Negotiation {
        addr: client(),
        sdp: "no sdp".to_string(),
        stage: Stage::ForwardingTrack,
    };
    let (n, action) = n.advance(Outcome::Done, &registry(&[client()]));
    assert!(matches!(action, OfferAction::Abort));
    assert_eq!(n.stage, Stage::Aborted);
}

#[test]
fn a_step_that_fails_ends_the_offer() {
    let clients = registry(&[client()]);
    let stages = [
        Stage::CreatingPeer,
        Stage::AddingTrack,
        Stage::WatchingCandidates,
        Stage::StoringPeer,
        Stage::ForwardingTrack,
        Stage::SettingRemote,
        Stage::CreatingAnswer,
        Stage::SettingLocal,
        Stage::ReadingLocal,
    ];
    for stage in stages {
        let n = Negotiation { addr: client(), sdp: SDP.to_string(), stage };
        let (n, action) = n.advance(Outcome::Failed, &clients);
        assert!(matches!(action, OfferAction::Abort));
        let (n, action) = n.advance(Outcome::Done, &clients);
        assert!(matches!(action, OfferAction::Nothing));
        assert_eq!(n.stage, Stage::Aborted);
    }
}

#[test]
fn a_client_that_is_gone_is_given_up() {
    let nobody = registry(&[]);
    for stage in [Stage::AddingTrack, Stage::ReadingLocal] {
        let n = Negotiation { addr: client(), sdp: SDP.to_string(), stage };
        let (_, action) = n.advance(Outcome::Described("s".to_string()), &nobody);
        assert!(matches!(action, OfferAction::Abort));
    }
}

#[test]
fn without_a_created_answer_there_is_no_local_description() {
    let n = Negotiation { addr: client(), sdp: SDP.to_string(), stage: Stage::CreatingAnswer };
    let (n, action) = n.advance(Outcome::Done, &registry(&[client()]));
    assert!(matches!(action, OfferAction::Abort));
    assert_eq!(n.stage, Stage::Aborted);
}

#[test]
fn without_a_local_description_there_is_no_answer() {
    let n = Negotiation { addr: client(), sdp: SDP.to_string(), stage: Stage::ReadingLocal };
    let (_, action) = n.advance(Outcome::Done, &registry(&[client()]));
    assert!(matches!(action, OfferAction::Abort));
}

#[test]
fn a_parsed_offer_is_set_as_the_remote_description() {
    let parsed = RTCSessionDescription::offer(SDP.to_string()).unwrap();
    let n = Negotiation { addr: client(), sdp: SDP.to_string(), stage: Stage::CreatingPeer };
    let (n, action) = n.set_remote(Some(parsed));
    assert!(matches!(action, OfferAction::SetRemote(description) if description.sdp == SDP));
    assert_eq!(n.stage, Stage::SettingRemote);

    let n = Negotiation { addr: client(), sdp: SDP.to_string(), stage: Stage::CreatingPeer };
    let (n, action) = n.set_remote(None);
    assert!(matches!(action, OfferAction::Abort));
    assert_eq!(n.stage, Stage::Aborted);
}

#[test]
fn what_is_no_offer_is_not_dealt_with() {
    let peers = registry(&[]);
    assert!(process_offer_message(&Json::Null, &peers, &client()).is_none());
    let json = read_json("{\"msg_type\":\"Offer\",\"content\":5}").unwrap();
    assert!(process_offer_message(&json, &peers, &client()).is_none());
}

#[test]
fn an_answer_is_set_as_the_remote_description() {
    let peers = registry(&[client()]);
    match process_answer_message(&signal("Answer", SDP), &peers, &client()) {
        AnswerAction::SetRemote(description) => {
            assert_eq!(description.sdp_type, RTCSdpType::Answer);
            assert_eq!(description.sdp, SDP);
        }
        other => panic!("{:?}", other),
    }
    assert!(matches!(
        process_answer_message(&signal("Answer", "no sdp"), &peers, &client()),
        AnswerAction::Abort
    ));
    assert!(matches!(set_answer(None), AnswerAction::Abort));
}

#[test]
fn an_answer_without_a_peer_connection_is_ignored() {
    let peers = registry(&[]);
    assert!(matches!(
        process_answer_message(&signal("Answer", SDP), &peers, &client()),
        AnswerAction::Ignore
    ));
    assert!(matches!(
        process_answer_message(&signal("Answer", "no sdp"), &peers, &client()),
        AnswerAction::Ignore
    ));
    assert!(matches!(
        process_answer_message(&Json::Bool(true), &registry(&[client()]), &client()),
        AnswerAction::Ignore
    ));
}

#[test]
fn an_offer_of_the_server_is_written_down() {
    let (stage, action) = send_offer();
    assert_eq!(stage, OfferStage::CreatingOffer);
    assert!(matches!(action, OwnOfferAction::CreateOffer));
    let offer = RTCSessionDescription::offer(OTHER_SDP.to_string()).unwrap();
    let (stage, action) = stage.advance(Outcome::Created(offer));
    assert!(matches!(action, OwnOfferAction::SetLocal(offer) if offer.sdp == OTHER_SDP));
    let (stage, action) = stage.advance(Outcome::Done);
    assert!(matches!(action, OwnOfferAction::ReadLocal));
    let (stage, action) = stage.advance(Outcome::Described("v=0".to_string()));
    match action {
        OwnOfferAction::Offer(text) => {
            assert_eq!(text, "{\"msg_type\":\"Offer\",\"content\":\"v=0\"}");
        }
        other => panic!("{:?}", other),
    }
    assert!(matches!(stage.advance(Outcome::Done).1, OwnOfferAction::Nothing));
}

#[test]
fn an_offer_of_the_server_is_given_up_when_a_step_fails() {
    for stage in [OfferStage::CreatingOffer, OfferStage::SettingLocal, OfferStage::ReadingLocal] {
        let (stage, action) = stage.advance(Outcome::Failed);
        assert!(matches!(action, OwnOfferAction::Abort));
        assert_eq!(stage, OfferStage::Aborted);
    }
    for stage in [OfferStage::CreatingOffer, OfferStage::ReadingLocal] {
        let (_, action) = stage.advance(Outcome::Done);
        assert!(matches!(action, OwnOfferAction::Abort));
    }
}

fn found(typ: &str, protocol: &str, address: &str) -> LocalCandidate {
    LocalCandidate {
        stats_id: "candidate:x".to_string(),
        foundation: "1".to_string(),
        priority: 2130706431,
        address: address.to_string(),
        protocol: protocol.to_string(),
        port: 5000,
        typ: typ.to_string(),
        component: 1,
        related_address: "10.0.0.1".to_string(),
        related_port: 6000,
        tcp_type: "unspecified".to_string(),
    }
}

#[test]
fn a_candidate_is_told_to_the_client() {
    let text = gather_and_send_candidates(Some(found("host", "udp", "192.168.1.2")));
    assert_eq!(
        text,
        Ok(Some(
            "{\"msg_type\":\"IceCandidate\",\"content\":\"candidate:1 1 udp 2130706431 192.168.1.2 5000 typ host\",\"sdp_mid\":\"\",\"sdp_mline_index\":0,\"username_fragment\":null}"
                .to_string()
        ))
    );
    let text = gather_and_send_candidates(Some(found("srflx", "tcp", "1.2.3.4")));
    assert_eq!(
        text,
        Ok(Some(
            "{\"msg_type\":\"IceCandidate\",\"content\":\"candidate:1 1 tcp 2130706431 1.2.3.4 5000 typ srflx raddr 10.0.0.1 rport 6000\",\"sdp_mid\":\"\",\"sdp_mline_index\":0,\"username_fragment\":null}"
                .to_string()
        ))
    );
}

#[test]
fn the_end_of_the_candidates_is_not_told() {
    assert_eq!(gather_and_send_candidates(None), Ok(None));
}

#[test]
fn a_candidate_that_cannot_be_described_is_refused() {
    assert_eq!(
        gather_and_send_candidates(Some(found("host", "udp", "nowhere"))),
        Err(CandidateRefused)
    );
    assert_eq!(
        gather_and_send_candidates(Some(found("other", "udp", "1.2.3.4"))),
        Err(CandidateRefused)
    );
    assert_eq!(
        gather_and_send_candidates(Some(found("host", "sctp", "1.2.3.4"))),
        Err(CandidateRefused)
    );
}

#[test]
fn each_candidate_is_told_once_and_in_order() {
    let list = vec![
        Some(found("host", "udp", "10.0.0.1")),
        None,
        Some(found("host", "udp", "nowhere")),
        Some(found("host", "udp", "10.0.0.2")),
    ];
    let mut texts = Vec::new();
    for candidate in list {
        if let Ok(Some(text)) = gather_and_send_candidates(candidate) {
            texts.push(text);
        }
    }
    assert_eq!(texts.len(), 2);
    assert!(texts[0].contains(" 10.0.0.1 5000 "));
    assert!(texts[1].contains(" 10.0.0.2 5000 "));
}

#[test]
fn a_candidate_notice_holds_the_candidate() {
    let text = candidate_notice(CandidateInit {
        candidate: "candidate:9".to_string(),
        sdp_mid: Some("1".to_string()),
        sdp_mline_index: None,
        username_fragment: Some("u".to_string()),
    });
    assert_eq!(
        text,
        "{\"msg_type\":\"IceCandidate\",\"content\":\"candidate:9\",\"sdp_mid\":\"1\",\"sdp_mline_index\":null,\"username_fragment\":\"u\"}"
    );
}

#[test]
fn a_candidate_that_is_told_back_is_the_same() {
    let text = candidate_notice(CandidateInit {
        candidate: "candidate:9".to_string(),
        sdp_mid: Some("".to_string()),
        sdp_mline_index: Some(0),
        username_fragment: None,
    });
    let json = read_json(&text).unwrap();
    let init = process_icecandidate_message(&json, &registry(&[client()]), &client()).unwrap();
    assert_eq!(init.candidate, "candidate:9");
    assert_eq!(init.sdp_mid, Some("".to_string()));
    assert_eq!(init.sdp_mline_index, Some(0));
    assert_eq!(init.username_fragment, None);
}

#[test]
fn a_candidate_of_a_client_is_added_to_its_peer_connection() {
    let json = read_json(
        "{\"msg_type\":\"IceCandidate\",\"content\":\"candidate:9\",\"sdp_mid\":\"0\",\"sdp_mline_index\":1}",
    )
    .unwrap();
    let init = process_icecandidate_message(&json, &registry(&[client()]), &client()).unwrap();
    assert_eq!(init.candidate, "candidate:9");
    assert_eq!(init.sdp_mid, Some("0".to_string()));
    assert_eq!(init.sdp_mline_index, Some(1));
    assert_eq!(init.username_fragment, None);
    assert!(process_icecandidate_message(&json, &registry(&[]), &client()).is_none());
    assert!(
        process_icecandidate_message(&Json::Null, &registry(&[client()]), &client()).is_none()
    );
}
