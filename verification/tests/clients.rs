use signaling::chat::{on_trackk, process_chat_message};
use signaling::json::{read_json, Json};
use signaling::registry::{Address, Registry};
use signaling::server::handle_connection;

fn v4(ip: u32, port: u16) -> Address {
    Address::V4 { ip, port }
}

fn json(text: &str) -> Json {
    read_json(text).expect("the text is JSON")
}

fn clients(addresses: &[Address]) -> Registry<u32> {
    let mut registry = Registry::new();
    for addr in addresses {
        registry.insert(*addr, 0);
    }
    registry
}

#[test]
fn an_empty_registry_holds_nothing() {
    let registry: Registry<u32> = Registry::new();
    assert!(!registry.contains(&v4(1, 1)));
    assert!(registry.get(&v4(1, 1)).is_none());
    assert!(registry.addresses().is_empty());
}

#[test]
fn what_is_inserted_is_found() {
    let mut registry = Registry::new();
    registry.insert(v4(1, 1), 'a');
    registry.insert(v4(1, 2), 'b');
    assert_eq!(registry.get(&v4(1, 1)), Some(&'a'));
    assert_eq!(registry.get(&v4(1, 2)), Some(&'b'));
    assert!(registry.get(&v4(2, 1)).is_none());
    registry.insert(v4(1, 1), 'c');
    assert_eq!(registry.get(&v4(1, 1)), Some(&'c'));
    assert_eq!(registry.get(&v4(1, 2)), Some(&'b'));
    assert_eq!(registry.addresses().len(), 2);
}

#[test]
fn every_part_of_an_address_counts() {
    let base = Address::V6 { ip6: 1, port: 2, flowinfo: 3, scope_id: 4 };
    let registry = clients(&[base]);
    assert!(registry.contains(&base));
    assert!(!registry.contains(&Address::V6 { ip6: 9, port: 2, flowinfo: 3, scope_id: 4 }));
    assert!(!registry.contains(&Address::V6 { ip6: 1, port: 9, flowinfo: 3, scope_id: 4 }));
    assert!(!registry.contains(&Address::V6 { ip6: 1, port: 2, flowinfo: 9, scope_id: 4 }));
    assert!(!registry.contains(&Address::V6 { ip6: 1, port: 2, flowinfo: 3, scope_id: 9 }));
    assert!(!registry.contains(&v4(1, 2)));
}

#[test]
fn a_client_is_taken_in_after_the_handshake() {
    let mut registry = Registry::new();
    assert!(handle_connection(&mut registry, v4(1, 1), Some("first")));
    assert!(handle_connection(&mut registry, v4(2, 1), Some("other")));
    assert_eq!(registry.get(&v4(1, 1)), Some(&"first"));
    assert!(handle_connection(&mut registry, v4(1, 1), Some("second")));
    assert_eq!(registry.get(&v4(1, 1)), Some(&"second"));
    assert_eq!(registry.get(&v4(2, 1)), Some(&"other"));
}

#[test]
fn a_client_is_not_taken_in_without_the_handshake() {
    let mut registry = Registry::new();
    registry.insert(v4(1, 1), "first");
    assert!(!handle_connection(&mut registry, v4(1, 1), None));
    assert!(!handle_connection(&mut registry, v4(2, 1), None));
    assert_eq!(registry.get(&v4(1, 1)), Some(&"first"));
    assert!(!registry.contains(&v4(2, 1)));
}

#[test]
fn a_chat_line_goes_to_all_the_others() {
    let registry = clients(&[v4(1, 1), v4(2, 1), v4(3, 1)]);
    let line = json("{\"msg_type\":\"Chat\",\"content\":\"hi\",\"room\":3}");
    let sends = process_chat_message(&line, &registry, &v4(2, 1));
    assert_eq!(sends.len(), 2);
    for to in [v4(1, 1), v4(3, 1)] {
        assert_eq!(sends.iter().filter(|s| s.to == to).count(), 1);
    }
    for send in &sends {
        assert_eq!(send.text, "{\"msg_type\":\"Chat\",\"content\":\"hi\"}");
    }
}

#[test]
fn a_chat_line_of_a_stranger_goes_to_everybody() {
    let registry = clients(&[v4(1, 1), v4(2, 1)]);
    let line = json("{\"msg_type\":\"Chat\",\"content\":\"hi\"}");
    assert_eq!(process_chat_message(&line, &registry, &v4(9, 9)).len(), 2);
}

#[test]
fn a_chat_line_of_the_only_client_goes_to_nobody() {
    let registry = clients(&[v4(1, 1)]);
    let line = json("{\"msg_type\":\"Chat\",\"content\":\"hi\"}");
    assert!(process_chat_message(&line, &registry, &v4(1, 1)).is_empty());
}

#[test]
fn what_is_no_chat_line_goes_to_nobody() {
    let registry = clients(&[v4(1, 1), v4(2, 1)]);
    assert!(process_chat_message(&json("{\"msg_type\":\"Chat\"}"), &registry, &v4(1, 1)).is_empty());
    assert!(process_chat_message(&json("[]"), &registry, &v4(1, 1)).is_empty());
}

#[test]
fn a_track_is_told_to_its_client_alone() {
    let registry = clients(&[v4(1, 1), v4(2, 1)]);
    let sends = on_trackk(&registry, &v4(2, 1), u32::MAX, "stream track", 96);
    assert_eq!(sends.len(), 1);
    assert_eq!(sends[0].to, v4(2, 1));
    assert_eq!(
        sends[0].text,
        "{\"msg_type\":\"NewVideoTrack\",\"ssrc\":\"4294967295\",\"mid\":\"stream track\",\"payload_type\":\"96\"}"
    );
    assert!(on_trackk(&registry, &v4(3, 1), 1, "m", 0).is_empty());
}
