//! Whom a text is sent to.

use vstd::prelude::*;

use crate::json::Json;
use crate::message::{ChatMessage, NewTrackSignalMessage, NewTrackView};
use crate::registry::{Address, Registry};
use crate::text::decimal_text;

verus! {

/// A text to be sent to a client.
#[derive(Debug)]
pub struct Outgoing {
    pub to: Address,
    pub text: String,
}

/// A text to be sent, seen as a mathematical value.
pub struct OutgoingView {
    pub to: Address,
    pub text: Seq<char>,
}

impl View for Outgoing {
    type V = OutgoingView;

    open spec fn view(&self) -> OutgoingView {
        OutgoingView { to: self.to, text: self.text@ }
    }
}

/// Texts to be sent, seen as mathematical values.
pub open spec fn sends_view(sends: Seq<Outgoing>) -> Seq<OutgoingView> {
    sends.map_values(|s: Outgoing| s@)
}

/// Some text is sent to the client.
pub open spec fn reaches(sends: Seq<OutgoingView>, addr: Address) -> bool {
    exists|i: int| 0 <= i < sends.len() && (#[trigger] sends[i]).to == addr
}

/// The text, and nothing else, is sent to each of the clients, once.
pub open spec fn delivers(sends: Seq<OutgoingView>, text: Seq<char>, to: Set<Address>) -> bool {
    &&& forall|i: int| 0 <= i < sends.len() ==> (#[trigger] sends[i]).text == text
    &&& forall|i: int, j: int|
        0 <= i < sends.len() && 0 <= j < sends.len() && i != j ==> (#[trigger] sends[i]).to != (
        #[trigger] sends[j]).to
    &&& forall|addr: Address| #[trigger] reaches(sends, addr) <==> to.contains(addr)
}

/// A copy of the text for each of the clients but one.
fn broadcast_text<V>(clients: &Registry<V>, except: &Address, text: &String) -> (sends: Vec<
    Outgoing,
>)
    ensures
        delivers(sends_view(sends@), text@, clients@.dom().remove(*except)),
{
    let addresses = clients.addresses();
    let mut sends: Vec<Outgoing> = Vec::new();
    let mut i: usize = 0;
    while i < addresses.len()
        invariant
            i <= addresses.len(),
            addresses@.no_duplicates(),
            forall|k: int|
                0 <= k < sends@.len() ==> (#[trigger] sends@[k]).text@ == text@ && sends@[k].to
                    != *except && exists|a: int| 0 <= a < i && addresses@[a] == sends@[k].to,
            forall|k: int, l: int|
                0 <= k < sends@.len() && 0 <= l < sends@.len() && k != l ==> (#[trigger] sends@[k]).to
                    != (#[trigger] sends@[l]).to,
            forall|a: int|
                0 <= a < i && #[trigger] addresses@[a] != *except ==> exists|k: int|
                    0 <= k < sends@.len() && (#[trigger] sends@[k]).to == addresses@[a],
        decreases addresses.len() - i,
    {
        let ghost before = sends@;
        let to = addresses[i];
        if to != *except {
            sends.push(Outgoing { to, text: text.clone() });
            proof {
                assert(sends@[before.len() as int].to == to);
                assert forall|a: int|
                    0 <= a < i + 1 && #[trigger] addresses@[a] != *except implies exists|k: int|
                    0 <= k < sends@.len() && (#[trigger] sends@[k]).to == addresses@[a] by {
                    if a < i {
                        let k = choose|k: int|
                            0 <= k < before.len() && (#[trigger] before[k]).to == addresses@[a];
                        assert(sends@[k] == before[k]);
                    }
                }
            }
        }
        i = i + 1;
    }
    proof {
        let views = sends_view(sends@);
        assert forall|addr: Address| #[trigger]
            reaches(views, addr) <==> clients@.dom().remove(*except).contains(addr) by {
            if reaches(views, addr) {
                let k = choose|k: int| 0 <= k < views.len() && (#[trigger] views[k]).to == addr;
                assert(sends@[k].to == addr);
                assert(addresses@.contains(addr));
            }
            if clients@.dom().contains(addr) && addr != *except {
                assert(addresses@.contains(addr));
                let a = addresses@.index_of(addr);
                let k = choose|k: int|
                    0 <= k < sends@.len() && (#[trigger] sends@[k]).to == addresses@[a];
                assert(views[k].to == addr);
            }
        }
    }
    sends
}

/// Answers a chat line: it goes to every client but the one that it came from.
/// A value that is no chat line goes to nobody.
pub fn process_chat_message<V>(
    json: &Json,
    web_socket_clients: &Registry<V>,
    addr: &Address,
) -> (sends: Vec<Outgoing>)
    ensures
        match crate::message::content_of(json@) {
            Some(chat) => delivers(
                sends_view(sends@),
                crate::message::content_text(chat),
                web_socket_clients@.dom().remove(*addr),
            ),
            None => sends@.len() == 0,
        },
{
    match ChatMessage::from_json(json) {
        Some(chat_message) => {
            let content = chat_message.to_text();
            broadcast_text(web_socket_clients, addr, &content)
        },
        None => Vec::new(),
    }
}

/// The notice of a track, given its source, its name and its payload type.
pub open spec fn track_notice(ssrc: u32, mid: Seq<char>, payload_type: u8) -> NewTrackView {
    NewTrackView {
        msg_type: "NewVideoTrack"@,
        ssrc: crate::text::decimal(ssrc as nat),
        mid,
        payload_type: crate::text::decimal(payload_type as nat),
    }
}

/// Tells a client of a track that its peer has begun to send. A client that is
/// not connected is told nothing.
pub fn on_trackk<V>(
    web_socket_clients: &Registry<V>,
    addr: &Address,
    ssrc: u32,
    mid: &str,
    payload_type: u8,
) -> (sends: Vec<Outgoing>)
    ensures
        sends_view(sends@) == if web_socket_clients@.dom().contains(*addr) {
            seq![
                OutgoingView {
                    to: *addr,
                    text: crate::message::track_text(track_notice(ssrc, mid@, payload_type)),
                },
            ]
        } else {
            seq![]
        },
{
    let mut sends: Vec<Outgoing> = Vec::new();
    if web_socket_clients.contains(addr) {
        let notice = NewTrackSignalMessage {
            msg_type: "NewVideoTrack".to_owned(),
            ssrc: decimal_text(ssrc as u64),
            mid: mid.to_owned(),
            payload_type: decimal_text(payload_type as u64),
        };
        sends.push(Outgoing { to: *addr, text: notice.to_text() });
    }
    sends
}

} // verus!
