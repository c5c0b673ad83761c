use signaling::json::{read_json, Json};
use signaling::message::{
    AnswerSignalMessage, ChatMessage, IceCandidateSignalMessage, MessageType,
    NewTrackSignalMessage, OfferSignalMessage,
};
use signaling::text::{decimal_text, write_object, Scalar};

fn parsed(text: &str) -> Json {
    read_json(text).expect("the text is JSON")
}

fn chat(msg_type: &str, content: &str) -> ChatMessage {
    ChatMessage { msg_type: msg_type.to_string(), content: content.to_string() }
}

#[test]
fn text_that_is_not_json_is_refused() {
    assert!(read_json("").is_none());
    assert!(read_json("hello").is_none());
    assert!(read_json("{\"a\":1").is_none());
    assert!(read_json("{} {}").is_none());
}

#[test]
fn every_kind_of_value_is_read() {
    assert!(matches!(parsed("null"), Json::Null));
    assert!(matches!(parsed(" true "), Json::Bool(true)));
    assert!(matches!(parsed("17"), Json::Number(Some(17))));
    assert!(matches!(parsed("18446744073709551615"), Json::Number(Some(u64::MAX))));
    assert!(matches!(parsed("18446744073709551616"), Json::Number(None)));
    assert!(matches!(parsed("-1"), Json::Number(None)));
    assert!(matches!(parsed("1.0"), Json::Number(None)));
    match parsed("\"a\\u0041\\n\"") {
        Json::Text(s) => assert_eq!(s, "aA\n"),
        other => panic!("{:?}", other),
    }
    match parsed("[null, [false]]") {
        Json::Array(items) => {
            assert_eq!(items.len(), 2);
            assert!(matches!(items[0], Json::Null));
            match &items[1] {
                Json::Array(inner) => assert!(matches!(inner[0], Json::Bool(false))),
                other => panic!("{:?}", other),
            }
        }
        other => panic!("{:?}", other),
    }
    match parsed("{\"b\": 1, \"a\": {\"c\": null}}") {
        Json::Object(members) => assert_eq!(members.len(), 2),
        other => panic!("{:?}", other),
    }
}

#[test]
fn members_are_found_by_name() {
    let json = parsed("{\"b\": 1, \"a\": {\"c\": null}}");
    assert!(matches!(json.get("b"), Some(Json::Number(Some(1)))));
    assert!(matches!(json.get("a").unwrap().get("c"), Some(Json::Null)));
    assert!(json.get("c").is_none());
    assert!(parsed("[1]").get("b").is_none());
    assert!(parsed("\"b\"").get("b").is_none());
}

#[test]
fn of_two_members_with_one_name_the_last_counts() {
    let json = parsed("{\"a\": 1, \"a\": 2}");
    assert!(matches!(json.get("a"), Some(Json::Number(Some(2)))));
}

#[test]
fn message_types_are_read_from_their_names() {
    let cases = vec![
        ("\"Chat\"", Some(MessageType::Chat)),
        ("\"Offer\"", Some(MessageType::Offer)),
        ("\"Answer\"", Some(MessageType::Answer)),
        ("\"IceCandidate\"", Some(MessageType::IceCandidate)),
        ("\"NewVideoTrack\"", Some(MessageType::NewVideoTrack)),
        ("\"chat\"", None),
        ("\"\"", None),
        ("0", None),
        ("null", None),
        ("[\"Chat\"]", None),
    ];
    for (text, expected) in cases {
        assert_eq!(MessageType::from_json(&parsed(text)), expected, "{}", text);
    }
}

#[test]
fn message_types_are_read_from_objects_of_one_null_member() {
    assert_eq!(MessageType::from_json(&parsed("{\"Chat\": null}")), Some(MessageType::Chat));
    assert_eq!(MessageType::from_json(&parsed("{\"Offer\": null}")), Some(MessageType::Offer));
    assert_eq!(MessageType::from_json(&parsed("{\"Chat\": 1}")), None);
    assert_eq!(MessageType::from_json(&parsed("{\"Other\": null}")), None);
    assert_eq!(MessageType::from_json(&parsed("{}")), None);
    assert_eq!(MessageType::from_json(&parsed("{\"Chat\": null, \"Offer\": null}")), None);
}

#[test]
fn chat_lines_are_read() {
    let message = ChatMessage::from_json(&parsed(
        "{\"content\": \"hi\", \"from\": 7, \"msg_type\": \"Chat\"}",
    ))
    .unwrap();
    assert_eq!(message.msg_type, "Chat");
    assert_eq!(message.content, "hi");
    let message = ChatMessage::from_json(&parsed("[\"Chat\", \"hi\"]")).unwrap();
    assert_eq!(message.content, "hi");
    let message = ChatMessage::from_json(&parsed("{\"msg_type\":\"x\",\"content\":\"\"}")).unwrap();
    assert_eq!(message.msg_type, "x");
    assert_eq!(message.content, "");
}

#[test]
fn what_is_no_chat_line_is_refused() {
    let cases = vec![
        "{\"msg_type\": \"Chat\"}",
        "{\"content\": \"hi\"}",
        "{\"msg_type\": \"Chat\", \"content\": null}",
        "{\"msg_type\": \"Chat\", \"content\": 1}",
        "{\"msg_type\": {\"Chat\": null}, \"content\": \"hi\"}",
        "[\"Chat\"]",
        "[\"Chat\", \"hi\", \"more\"]",
        "\"Chat\"",
        "null",
    ];
    for text in cases {
        assert!(ChatMessage::from_json(&parsed(text)).is_none(), "{}", text);
        assert!(OfferSignalMessage::from_json(&parsed(text)).is_none(), "{}", text);
        assert!(AnswerSignalMessage::from_json(&parsed(text)).is_none(), "{}", text);
    }
}

#[test]
fn offers_and_answers_are_read() {
    let json = parsed("{\"msg_type\": \"Offer\", \"content\": \"v=0\\r\\n\"}");
    assert_eq!(OfferSignalMessage::from_json(&json).unwrap().content, "v=0\r\n");
    assert_eq!(AnswerSignalMessage::from_json(&json).unwrap().msg_type, "Offer");
}

#[test]
fn candidates_are_read() {
    let full = IceCandidateSignalMessage::from_json(&parsed(
        "{\"msg_type\":\"IceCandidate\",\"content\":\"candidate:1\",\"sdp_mid\":\"0\",\"sdp_mline_index\":65535,\"username_fragment\":\"u\"}",
    ))
    .unwrap();
    assert_eq!(full.content, "candidate:1");
    assert_eq!(full.sdp_mid, Some("0".to_string()));
    assert_eq!(full.sdp_mline_index, Some(65535));
    assert_eq!(full.username_fragment, Some("u".to_string()));

    let sparse = IceCandidateSignalMessage::from_json(&parsed(
        "{\"msg_type\":\"IceCandidate\",\"content\":\"c\",\"sdp_mid\":null}",
    ))
    .unwrap();
    assert_eq!(sparse.sdp_mid, None);
    assert_eq!(sparse.sdp_mline_index, None);
    assert_eq!(sparse.username_fragment, None);

    let listed =
        IceCandidateSignalMessage::from_json(&parsed("[\"t\",\"c\",null,3,\"u\"]")).unwrap();
    assert_eq!(listed.sdp_mline_index, Some(3));
}

#[test]
fn what_is_no_candidate_is_refused() {
    let cases = vec![
        "{\"msg_type\":\"t\",\"content\":\"c\",\"sdp_mline_index\":65536}",
        "{\"msg_type\":\"t\",\"content\":\"c\",\"sdp_mline_index\":-1}",
        "{\"msg_type\":\"t\",\"content\":\"c\",\"sdp_mline_index\":1.5}",
        "{\"msg_type\":\"t\",\"content\":\"c\",\"sdp_mline_index\":\"1\"}",
        "{\"msg_type\":\"t\",\"content\":\"c\",\"sdp_mid\":0}",
        "{\"msg_type\":\"t\",\"content\":\"c\",\"username_fragment\":[]}",
        "{\"msg_type\":\"t\"}",
        "[\"t\",\"c\"]",
        "[\"t\",\"c\",null,null]",
        "17",
    ];
    for text in cases {
        assert!(IceCandidateSignalMessage::from_json(&parsed(text)).is_none(), "{}", text);
    }
}

#[test]
fn further_members_and_their_order_make_no_difference() {
    let a = ChatMessage::from_json(&parsed("{\"msg_type\":\"Chat\",\"content\":\"hi\"}")).unwrap();
    let b = ChatMessage::from_json(&parsed(
        "{\"x\":[1],\"content\":\"hi\",\"y\":null,\"msg_type\":\"Chat\",\"z\":\"\"}",
    ))
    .unwrap();
    assert_eq!(a.to_text(), b.to_text());
}

#[test]
fn chat_lines_are_written() {
    assert_eq!(
        chat("Chat", "hello").to_text(),
        "{\"msg_type\":\"Chat\",\"content\":\"hello\"}"
    );
}

#[test]
fn strings_are_escaped() {
    assert_eq!(
        chat("", "\" \\ / \u{8}\t\n\u{c}\r \u{0} \u{1f} \u{7f} ğ 🎥").to_text(),
        "{\"msg_type\":\"\",\"content\":\"\\\" \\\\ / \\b\\t\\n\\f\\r \\u0000 \\u001f \u{7f} ğ 🎥\"}"
    );
    assert_eq!(
        chat("", "\u{1}\u{b}\u{e}\u{10}\u{1a}").to_text(),
        "{\"msg_type\":\"\",\"content\":\"\\u0001\\u000b\\u000e\\u0010\\u001a\"}"
    );
}

#[test]
fn offers_and_answers_are_written() {
    let offer = OfferSignalMessage { msg_type: "Offer".to_string(), content: "v=0\r\n".to_string() };
    assert_eq!(offer.to_text(), "{\"msg_type\":\"Offer\",\"content\":\"v=0\\r\\n\"}");
    let answer = AnswerSignalMessage { msg_type: "Answer".to_string(), content: "s".to_string() };
    assert_eq!(answer.to_text(), "{\"msg_type\":\"Answer\",\"content\":\"s\"}");
}

#[test]
fn candidates_are_written() {
    let full = IceCandidateSignalMessage {
        msg_type: "IceCandidate".to_string(),
        content: "candidate:1".to_string(),
        sdp_mid: Some("".to_string()),
        sdp_mline_index: Some(0),
        username_fragment: None,
    };
    assert_eq!(
        full.to_text(),
        "{\"msg_type\":\"IceCandidate\",\"content\":\"candidate:1\",\"sdp_mid\":\"\",\"sdp_mline_index\":0,\"username_fragment\":null}"
    );
    let other = IceCandidateSignalMessage {
        msg_type: "t".to_string(),
        content: "c".to_string(),
        sdp_mid: None,
        sdp_mline_index: Some(65535),
        username_fragment: Some("u".to_string()),
    };
    assert_eq!(
        other.to_text(),
        "{\"msg_type\":\"t\",\"content\":\"c\",\"sdp_mid\":null,\"sdp_mline_index\":65535,\"username_fragment\":\"u\"}"
    );
}

#[test]
fn track_notices_are_written() {
    let notice = NewTrackSignalMessage {
        msg_type: "NewVideoTrack".to_string(),
        ssrc: "1".to_string(),
        mid: "stream id".to_string(),
        payload_type: "96".to_string(),
    };
    assert_eq!(
        notice.to_text(),
        "{\"msg_type\":\"NewVideoTrack\",\"ssrc\":\"1\",\"mid\":\"stream id\",\"payload_type\":\"96\"}"
    );
}

#[test]
fn what_is_written_is_read_back() {
    for content in vec!["", "hi", "\"\\\u{0}\u{1f}\n", "ğüş 🎥", "{\"msg_type\":\"Offer\"}"] {
        let written = chat("Chat", content).to_text();
        let read = ChatMessage::from_json(&parsed(&written)).unwrap();
        assert_eq!(read.msg_type, "Chat");
        assert_eq!(read.content, content);
        assert_eq!(read.to_text(), written);
    }
    let candidate = IceCandidateSignalMessage {
        msg_type: "IceCandidate".to_string(),
        content: "c\n".to_string(),
        sdp_mid: Some("\"".to_string()),
        sdp_mline_index: Some(12),
        username_fragment: None,
    };
    let read = IceCandidateSignalMessage::from_json(&parsed(&candidate.to_text())).unwrap();
    assert_eq!(read.content, "c\n");
    assert_eq!(read.sdp_mid, Some("\"".to_string()));
    assert_eq!(read.sdp_mline_index, Some(12));
    assert_eq!(read.username_fragment, None);
}

#[test]
fn different_messages_have_different_texts() {
    let a = chat("a", "b\",\"content\":\"c").to_text();
    let b = chat("a\",\"content\":\"b", "c").to_text();
    assert_ne!(a, b);
}

#[test]
fn objects_are_written_field_by_field() {
    assert_eq!(write_object(&Vec::new()), "{}");
    assert_eq!(write_object(&vec![("a", Scalar::Null)]), "{\"a\":null}");
    assert_eq!(
        write_object(&vec![
            ("n", Scalar::Number(u64::MAX)),
            ("a\"", Scalar::Text("x".to_string())),
        ]),
        "{\"n\":18446744073709551615,\"a\\\"\":\"x\"}"
    );
}

#[test]
fn numbers_are_written_in_decimal() {
    assert_eq!(decimal_text(0), "0");
    assert_eq!(decimal_text(9), "9");
    assert_eq!(decimal_text(10), "10");
    assert_eq!(decimal_text(1234567890), "1234567890");
    assert_eq!(decimal_text(u64::MAX), u64::MAX.to_string());
}
