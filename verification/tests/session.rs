use signaling::negotiation::{Negotiation, OfferAction, Outcome, Stage};
use signaling::registry::{Address, Registry};
use signaling::server::Incoming;
use signaling::session::{keep_peer, respond, Response};
use webrtc::peer_connection::sdp::sdp_type::RTCSdpType;
use webrtc::peer_connection::sdp::session_description::RTCSessionDescription;

const SDP: &str = "v=0\r\no=- 1 1 IN IP4 127.0.0.1\r\ns=-\r\nt=0 0\r\n";
const SDP_JSON: &str = "v=0\\r\\no=- 1 1 IN IP4 127.0.0.1\\r\\ns=-\\r\\nt=0 0\\r\\n";

fn here() -> Address {
    Address::V4 { ip: 1, port: 1 }
}

fn there() -> Address {
    Address::V4 { ip: 2, port: 1 }
}

fn clients() -> Registry<char> {
    let mut clients = Registry::new();
    clients.insert(here(), 'h');
    clients.insert(there(), 't');
    clients
}

fn peers(peers: &[(Address, u32)]) -> Registry<u32> {
    let mut registry = Registry::new();
    for (addr, peer) in peers {
        registry.insert(*addr, *peer);
    }
    registry
}

fn text(msg_type: &str, content: &str) -> Incoming {
    Incoming::Text(format!("{{\"msg_type\":\"{}\",\"content\":\"{}\"}}", msg_type, content))
}

/// Deals with an offer to its end, with steps that all succeed.
fn answer(
    mut state: Negotiation,
    mut action: OfferAction,
    clients: &Registry<char>,
    peers: &mut Registry<u32>,
    created: u32,
) -> String {
    loop {
        keep_peer(peers, &action, created);
        let outcome = match action {
            OfferAction::CreateAnswer => {
                Outcome::Created(RTCSessionDescription::answer(SDP.to_string()).unwrap())
            }
            OfferAction::ReadLocal => Outcome::Described("local".to_string()),
            OfferAction::Send(outgoing) => {
                assert_eq!(outgoing.to, here());
                assert_eq!(state.stage, Stage::Finished);
                return outgoing.text;
            }
            OfferAction::Abort | OfferAction::Nothing => panic!("{:?}", state),
            _ => Outcome::Done,
        };
        (state, action) = state.advance(outcome, clients);
    }
}

#[test]
fn a_chat_line_is_told_to_the_others() {
    match respond(text("Chat", "hi"), &clients(), &peers(&[]), &here()) {
        Response::Tell(sends) => {
            assert_eq!(sends.len(), 1);
            assert_eq!(sends[0].to, there());
            assert_eq!(sends[0].text, "{\"msg_type\":\"Chat\",\"content\":\"hi\"}");
        }
        other => panic!("{:?}", other),
    }
    let bare = Incoming::Text("{\"msg_type\":\"Chat\"}".to_string());
    match respond(bare, &clients(), &peers(&[]), &here()) {
        Response::Tell(sends) => assert!(sends.is_empty()),
        other => panic!("{:?}", other),
    }
}

#[test]
fn an_offer_adds_a_peer_connection_for_its_client_alone() {
    let clients = clients();
    let mut peers = peers(&[(there(), 7)]);
    match respond(text("Offer", SDP_JSON), &clients, &peers, &here()) {
        Response::Negotiate(state, action) => {
            assert!(matches!(action, OfferAction::CreatePeer(_)));
            let answer = answer(state, action, &clients, &mut peers, 8);
            assert_eq!(answer, "{\"msg_type\":\"Answer\",\"content\":\"local\"}");
        }
        other => panic!("{:?}", other),
    }
    assert_eq!(peers.get(&here()), Some(&8));
    assert_eq!(peers.get(&there()), Some(&7));
    assert_eq!(peers.addresses().len(), 2);
    assert_eq!(clients.addresses().len(), 2);
}

#[test]
fn a_second_offer_adds_no_peer_connection() {
    let clients = clients();
    let mut peers = peers(&[(here(), 8), (there(), 7)]);
    match respond(text("Offer", SDP_JSON), &clients, &peers, &here()) {
        Response::Negotiate(state, action) => {
            assert!(matches!(action, OfferAction::SetRemote(_)));
            answer(state, action, &clients, &mut peers, 9);
        }
        other => panic!("{:?}", other),
    }
    assert_eq!(peers.get(&here()), Some(&8));
    assert_eq!(peers.get(&there()), Some(&7));
}

#[test]
fn only_one_step_keeps_a_peer_connection() {
    let mut kept = peers(&[]);
    keep_peer(&mut kept, &OfferAction::ForwardTrack, 1);
    keep_peer(&mut kept, &OfferAction::WatchCandidates(here()), 1);
    assert!(kept.addresses().is_empty());
    keep_peer(&mut kept, &OfferAction::StorePeer(here()), 1);
    assert_eq!(kept.get(&here()), Some(&1));
}

#[test]
fn answers_and_candidates_are_for_peer_connections() {
    let none = peers(&[(there(), 7)]);
    let own = peers(&[(here(), 8)]);
    match respond(text("Answer", SDP_JSON), &clients(), &own, &here()) {
        Response::SetRemote(description) => {
            assert_eq!(description.sdp_type, RTCSdpType::Answer);
            assert_eq!(description.sdp, SDP);
        }
        other => panic!("{:?}", other),
    }
    assert!(matches!(
        respond(text("Answer", "no sdp"), &clients(), &own, &here()),
        Response::Abort
    ));
    assert!(matches!(
        respond(text("Answer", SDP_JSON), &clients(), &none, &here()),
        Response::Nothing
    ));
    match respond(text("IceCandidate", "candidate:1"), &clients(), &own, &here()) {
        Response::AddCandidate(init) => assert_eq!(init.candidate, "candidate:1"),
        other => panic!("{:?}", other),
    }
    assert!(matches!(
        respond(text("IceCandidate", "candidate:1"), &clients(), &none, &here()),
        Response::Nothing
    ));
}

#[test]
fn what_is_no_offer_changes_nothing() {
    let bare = Incoming::Text("{\"msg_type\":\"Offer\",\"content\":1}".to_string());
    assert!(matches!(respond(bare, &clients(), &peers(&[]), &here()), Response::Nothing));
}

#[test]
fn the_rest_is_reported_or_ends_the_service() {
    let response = |incoming: Incoming| respond(incoming, &clients(), &peers(&[]), &here());
    assert!(matches!(response(text("NewVideoTrack", "")), Response::ReportTrack));
    assert!(matches!(response(text("Bye", "")), Response::ReportType));
    assert!(matches!(response(Incoming::Text("{}".to_string())), Response::Nothing));
    assert!(matches!(response(Incoming::Other), Response::Nothing));
    assert!(!response(text("Bye", "")).stops());
    assert!(!response(text("Offer", "no sdp")).stops());
    assert!(matches!(response(Incoming::Close), Response::ReportClose));
    assert!(matches!(response(Incoming::Failed), Response::ReportFailure));
    assert!(matches!(response(Incoming::Ended), Response::Stop));
    assert!(response(Incoming::Close).stops());
    assert!(response(Incoming::Failed).stops());
    assert!(response(Incoming::Ended).stops());
}

#[test]
fn two_streams_are_served_like_one() {
    let serve = |frames: Vec<&str>, peers: &mut Registry<u32>| -> Vec<String> {
        let clients = clients();
        let mut told = Vec::new();
        for frame in frames {
            match respond(Incoming::Text(frame.to_string()), &clients, peers, &here()) {
                Response::Tell(sends) => told.extend(sends.into_iter().map(|s| s.text)),
                Response::Negotiate(state, action) => {
                    told.push(answer(state, action, &clients, peers, 5));
                }
                _ => {}
            }
        }
        told
    };
    let offer = format!("{{\"msg_type\":\"Offer\",\"content\":\"{}\"}}", SDP_JSON);
    let first = vec!["{\"msg_type\":\"Chat\",\"content\":\"a\"}", "none", offer.as_str()];
    let second = vec![offer.as_str(), "{\"msg_type\":\"Chat\",\"content\":\"b\"}"];
    let mut apart = peers(&[]);
    let mut told = serve(first.clone(), &mut apart);
    told.extend(serve(second.clone(), &mut apart));
    let mut whole = peers(&[]);
    let both = serve([first, second].concat(), &mut whole);
    assert_eq!(both.len(), 4);
    assert_eq!(both, told);
    assert_eq!(whole.get(&here()), apart.get(&here()));
}
