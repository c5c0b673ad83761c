use signaling::message::{ChatMessage, IceCandidateSignalMessage, OfferSignalMessage};
use signaling::registry::Address;
use signaling::server::{
    create_sender, handle_messages, start_listening, Dispatch, Incoming, ListenAction,
    ListenEvent, Listener, Sender, SenderAction, SenderEvent,
};

fn text(text: &str) -> Dispatch {
    handle_messages(Incoming::Text(text.to_string()))
}

#[test]
fn the_server_listens_on_every_interface() {
    let (listener, action) = start_listening();
    assert_eq!(listener, Listener::Binding);
    assert_eq!(action, ListenAction::Bind(Address::V4 { ip: 0, port: 8080 }));
}

#[test]
fn a_bound_server_accepts_clients_for_ever() {
    let (mut listener, _) = start_listening();
    let events = [
        (ListenEvent::Done, ListenAction::Announce),
        (ListenEvent::Done, ListenAction::Serve),
        (ListenEvent::Failed, ListenAction::ReportClient),
        (ListenEvent::Failed, ListenAction::ReportClient),
        (ListenEvent::Done, ListenAction::Serve),
    ];
    for (event, expected) in events {
        let (next, action) = listener.advance(event);
        assert_eq!(action, expected);
        assert_eq!(next, Listener::Accepting);
        listener = next;
    }
}

#[test]
fn a_server_without_its_address_stops() {
    let (listener, _) = start_listening();
    let (listener, action) = listener.advance(ListenEvent::Failed);
    assert_eq!((listener, action), (Listener::Closed, ListenAction::ReportAddress));
    assert_eq!(listener.advance(ListenEvent::Done), (Listener::Closed, ListenAction::Stop));
}

#[test]
fn messages_are_told_apart_by_their_type() {
    assert!(matches!(text("{\"msg_type\":\"Chat\"}"), Dispatch::Chat(_)));
    assert!(matches!(text("{\"msg_type\":\"Offer\"}"), Dispatch::Offer(_)));
    assert!(matches!(text("{\"msg_type\":\"Answer\"}"), Dispatch::Answer(_)));
    assert!(matches!(text("{\"msg_type\":\"IceCandidate\"}"), Dispatch::IceCandidate(_)));
    assert!(matches!(text("{\"msg_type\":\"NewVideoTrack\"}"), Dispatch::NewVideoTrack));
    assert!(matches!(text("{\"msg_type\":{\"NewVideoTrack\":null}}"), Dispatch::NewVideoTrack));
}

#[test]
fn a_type_that_there_is_not_is_unknown() {
    assert!(matches!(text("{\"msg_type\":\"chat\"}"), Dispatch::UnknownType));
    assert!(matches!(text("{\"msg_type\":null}"), Dispatch::UnknownType));
    assert!(matches!(text("{\"msg_type\":{\"Chat\":1}}"), Dispatch::UnknownType));
}

#[test]
fn what_has_no_type_is_ignored() {
    assert!(matches!(text("{}"), Dispatch::Ignore));
    assert!(matches!(text("{\"type\":\"Chat\"}"), Dispatch::Ignore));
    assert!(matches!(text("[\"Chat\",\"hi\"]"), Dispatch::Ignore));
    assert!(matches!(text("\"msg_type\""), Dispatch::Ignore));
    assert!(matches!(text("not json"), Dispatch::Ignore));
    assert!(matches!(text(""), Dispatch::Ignore));
    assert!(matches!(handle_messages(Incoming::Other), Dispatch::Ignore));
}

#[test]
fn a_client_is_served_until_its_connection_ends() {
    assert!(matches!(handle_messages(Incoming::Close), Dispatch::ReportClose));
    assert!(matches!(handle_messages(Incoming::Failed), Dispatch::ReportFailure));
    assert!(matches!(handle_messages(Incoming::Ended), Dispatch::Stop));
}

#[test]
fn what_the_server_writes_it_understands() {
    let chat = ChatMessage { msg_type: "Chat".to_string(), content: "\"hi\"\n".to_string() };
    match text(&chat.to_text()) {
        Dispatch::Chat(json) => {
            let read = ChatMessage::from_json(&json).unwrap();
            assert_eq!(read.content, "\"hi\"\n");
            assert_eq!(read.to_text(), chat.to_text());
        }
        other => panic!("{:?}", other),
    }
    let offer = OfferSignalMessage { msg_type: "Offer".to_string(), content: "v=0".to_string() };
    match text(&offer.to_text()) {
        Dispatch::Offer(json) => {
            assert_eq!(OfferSignalMessage::from_json(&json).unwrap().content, "v=0");
        }
        other => panic!("{:?}", other),
    }
    let candidate = IceCandidateSignalMessage {
        msg_type: "IceCandidate".to_string(),
        content: "candidate:1".to_string(),
        sdp_mid: None,
        sdp_mline_index: Some(7),
        username_fragment: Some("u".to_string()),
    };
    match text(&candidate.to_text()) {
        Dispatch::IceCandidate(json) => {
            let read = IceCandidateSignalMessage::from_json(&json).unwrap();
            assert_eq!(read.to_text(), candidate.to_text());
        }
        other => panic!("{:?}", other),
    }
}

/// Sends a queue, with sends that succeed or fail as told; gives what was sent.
fn send_all(queue: &[&'static str], sent: &[bool]) -> Vec<&'static str> {
    let (mut sender, mut action) = create_sender();
    let mut handed_over = Vec::new();
    let mut place = 0;
    loop {
        let event = match action {
            SenderAction::Receive => match queue.get(place) {
                Some(message) => {
                    place += 1;
                    SenderEvent::Received(*message)
                }
                None => SenderEvent::Drained,
            },
            SenderAction::Send(message) => {
                let went = sent[handed_over.len()];
                handed_over.push(message);
                if went {
                    SenderEvent::Sent
                } else {
                    SenderEvent::Failed
                }
            }
            SenderAction::Stop => return handed_over,
        };
        (sender, action) = sender.advance(event);
        assert_eq!(sender == Sender::Stopped, matches!(action, SenderAction::Stop));
    }
}

#[test]
fn a_queue_is_sent_in_order_whatever_comes_of_the_sends() {
    let queue = ["a", "b", "b", "c"];
    assert_eq!(send_all(&queue, &[true, true, true, true]), queue);
    assert_eq!(send_all(&queue, &[false, true, false, false]), queue);
    assert!(send_all(&[], &[]).is_empty());
}

#[test]
fn a_sender_stops_when_the_queue_is_drained() {
    let (sender, action) = create_sender::<u8>();
    assert_eq!(sender, Sender::Receiving);
    assert!(matches!(action, SenderAction::Receive));
    let (sender, action) = sender.advance(SenderEvent::Received(5));
    assert_eq!(sender, Sender::Sending);
    assert!(matches!(action, SenderAction::Send(5)));
    let (sender, action) = sender.advance::<u8>(SenderEvent::Failed);
    assert_eq!(sender, Sender::Receiving);
    assert!(matches!(action, SenderAction::Receive));
    let (sender, action) = sender.advance::<u8>(SenderEvent::Drained);
    assert_eq!(sender, Sender::Stopped);
    assert!(matches!(action, SenderAction::Stop));
    let (sender, action) = sender.advance(SenderEvent::Received(6));
    assert_eq!(sender, Sender::Stopped);
    assert!(matches!(action, SenderAction::Stop));
}
