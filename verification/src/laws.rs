//! What holds of the server as a whole.

use vstd::prelude::*;
use webrtc::peer_connection::sdp::session_description::RTCSessionDescription;

use crate::chat::OutgoingView;
use crate::json::JsonView;
use crate::media::{LateActionView, LateTracks, PacketEvent, Relay, RelayAction};
use crate::message::{ContentView, IceCandidateView, MessageType, NewTrackView};
use crate::negotiation::{
    CandidateInitView, LocalCandidateView, NegotiationView, OfferActionView, OfferStage, OutcomeView, OwnOfferActionView, Stage,
};
use crate::registry::Address;
use crate::text::ScalarView;
use crate::server::{
    IncomingView, ListenAction, ListenEvent, Listener, Sender, SenderAction, SenderEvent,
};

verus! {

// ---------------------------------------------------------------------------
// Messages
// ---------------------------------------------------------------------------

/// Every message type is read from its name, and from no other name.
pub proof fn law_type_names(msg_type: MessageType, name: Seq<char>)
    ensures
        crate::message::named_type(name) == Some(msg_type) <==> name == crate::message::wire_name(
            msg_type,
        ),
{
    reveal_strlit("Chat");
    reveal_strlit("Offer");
    reveal_strlit("Answer");
    reveal_strlit("IceCandidate");
    reveal_strlit("NewVideoTrack");
    assert("Chat"@.len() == 4 && "Offer"@.len() == 5 && "Answer"@.len() == 6);
    assert("IceCandidate"@.len() == 12 && "NewVideoTrack"@.len() == 13);
}

/// A message type written as an object with one member, its name with null, is
/// the same as the name alone; with any other value it is no message type.
pub proof fn law_type_as_object(name: Seq<char>, value: JsonView)
    ensures
        crate::message::type_of(JsonView::Object(seq![(name, value)])) == if value is Null {
            crate::message::type_of(JsonView::Text(name))
        } else {
            None
        },
{
}

/// The names of a message's fields are distinct.
pub(crate) proof fn lemma_field_names()
    ensures
        "msg_type"@ != "content"@,
        "msg_type"@ != "sdp_mid"@,
        "msg_type"@ != "sdp_mline_index"@,
        "msg_type"@ != "username_fragment"@,
        "content"@ != "sdp_mid"@,
        "content"@ != "sdp_mline_index"@,
        "content"@ != "username_fragment"@,
        "sdp_mid"@ != "sdp_mline_index"@,
        "sdp_mid"@ != "username_fragment"@,
        "sdp_mline_index"@ != "username_fragment"@,
        "msg_type"@ != "ssrc"@,
        "msg_type"@ != "mid"@,
        "msg_type"@ != "payload_type"@,
        "ssrc"@ != "mid"@,
        "ssrc"@ != "payload_type"@,
        "mid"@ != "payload_type"@,
{
    reveal_strlit("msg_type");
    reveal_strlit("content");
    reveal_strlit("sdp_mid");
    reveal_strlit("sdp_mline_index");
    reveal_strlit("username_fragment");
    reveal_strlit("ssrc");
    reveal_strlit("mid");
    reveal_strlit("payload_type");
    assert("msg_type"@.len() == 8 && "content"@.len() == 7 && "sdp_mid"@.len() == 7);
    assert("sdp_mline_index"@.len() == 15 && "username_fragment"@.len() == 17);
    assert("ssrc"@.len() == 4 && "mid"@.len() == 3 && "payload_type"@.len() == 12);
    assert("content"@[0] == 'c' && "sdp_mid"@[0] == 's');
}

/// A member is found by its name at the one place where the name stands.
pub(crate) proof fn lemma_member_at(members: Seq<(Seq<char>, JsonView)>, i: int)
    requires
        crate::json::distinct_names(members),
        0 <= i < members.len(),
    ensures
        crate::json::member(members, members[i].0) == Some(members[i].1),
    decreases i,
{
    let name = members[i].0;
    if i > 0 {
        let rest = members.drop_first();
        assert(members[0].0 != name);
        assert(crate::json::distinct_names(rest)) by {
            assert forall|a: int, b: int|
                0 <= a < rest.len() && 0 <= b < rest.len() && a != b implies #[trigger] rest[a].0
                != #[trigger] rest[b].0 by {
                assert(members[a + 1].0 != members[b + 1].0);
            }
        }
        assert(rest[i - 1] == members[i]);
        lemma_member_at(rest, i - 1);
    }
}

/// A member that is found stands somewhere.
pub(crate) proof fn lemma_member_stands(members: Seq<(Seq<char>, JsonView)>, name: Seq<char>) -> (i: int)
    requires
        crate::json::member(members, name) is Some,
    ensures
        0 <= i < members.len(),
        members[i] == (name, crate::json::member(members, name)->0),
    decreases members.len(),
{
    if members[0].0 == name {
        0
    } else {
        let i = lemma_member_stands(members.drop_first(), name);
        i + 1
    }
}

/// An object that holds just the fields of a chat line, an offer or an answer
/// is read as that message, and its type as the message's type.
pub proof fn law_content_read_back(value: JsonView, message: ContentView)
    requires
        crate::json::holds_fields(value, crate::message::content_fields(message)),
    ensures
        crate::message::content_of(value) == Some(message),
        value.get("msg_type"@) == Some(JsonView::Text(message.msg_type)),
{
    let fields = crate::json::fields_json(crate::message::content_fields(message));
    lemma_content_names(message);
    lemma_member_at(fields, 0);
    lemma_member_at(fields, 1);
}

/// An object that holds just the fields of a candidate message is read as that
/// message, and its type as the message's type.
pub proof fn law_candidate_read_back(value: JsonView, message: IceCandidateView)
    requires
        crate::json::holds_fields(value, crate::message::candidate_fields(message)),
    ensures
        crate::message::candidate_of(value) == Some(message),
        value.get("msg_type"@) == Some(JsonView::Text(message.msg_type)),
{
    let fields = crate::json::fields_json(crate::message::candidate_fields(message));
    lemma_candidate_names(message);
    lemma_member_at(fields, 0);
    lemma_member_at(fields, 1);
    lemma_member_at(fields, 2);
    lemma_member_at(fields, 3);
    lemma_member_at(fields, 4);
}

/// An object that holds just the fields of a track notice has the notice's type.
pub proof fn law_track_read_back(value: JsonView, message: NewTrackView)
    requires
        crate::json::holds_fields(value, crate::message::track_fields(message)),
    ensures
        value.get("msg_type"@) == Some(JsonView::Text(message.msg_type)),
        value.get("ssrc"@) == Some(JsonView::Text(message.ssrc)),
        value.get("mid"@) == Some(JsonView::Text(message.mid)),
        value.get("payload_type"@) == Some(JsonView::Text(message.payload_type)),
{
    let fields = crate::json::fields_json(crate::message::track_fields(message));
    lemma_track_names(message);
    lemma_member_at(fields, 0);
    lemma_member_at(fields, 1);
    lemma_member_at(fields, 2);
    lemma_member_at(fields, 3);
}

pub(crate) proof fn lemma_content_names(message: ContentView)
    ensures
        crate::json::distinct_names(crate::message::content_fields(message)),
        crate::json::distinct_names(
            crate::json::fields_json(crate::message::content_fields(message)),
        ),
{
    lemma_field_names();
}

pub(crate) proof fn lemma_candidate_names(message: IceCandidateView)
    ensures
        crate::json::distinct_names(crate::message::candidate_fields(message)),
        crate::json::distinct_names(
            crate::json::fields_json(crate::message::candidate_fields(message)),
        ),
{
    lemma_field_names();
}

pub(crate) proof fn lemma_track_names(message: NewTrackView)
    ensures
        crate::json::distinct_names(crate::message::track_fields(message)),
        crate::json::distinct_names(
            crate::json::fields_json(crate::message::track_fields(message)),
        ),
{
    lemma_field_names();
}

/// What a value is read as, whatever the message it is taken for.
pub open spec fn read_alike(a: JsonView, b: JsonView) -> bool {
    &&& crate::message::content_of(a) == crate::message::content_of(b)
    &&& crate::message::candidate_of(a) == crate::message::candidate_of(b)
    &&& a.get("msg_type"@) == b.get("msg_type"@)
}

/// In which order an object keeps its members makes no difference to what it is
/// read as.
pub proof fn law_member_order(
    a: Seq<(Seq<char>, JsonView)>,
    b: Seq<(Seq<char>, JsonView)>,
)
    requires
        crate::json::distinct_names(a),
        crate::json::distinct_names(b),
        forall|m: (Seq<char>, JsonView)| a.contains(m) <==> b.contains(m),
    ensures
        forall|name: Seq<char>| #[trigger]
            crate::json::member(a, name) == crate::json::member(b, name),
        read_alike(JsonView::Object(a), JsonView::Object(b)),
{
    assert forall|name: Seq<char>| #[trigger]
        crate::json::member(a, name) == crate::json::member(b, name) by {
        if crate::json::member(a, name) is Some {
            let i = lemma_member_stands(a, name);
            assert(b.contains(a[i]));
            let j = b.index_of(a[i]);
            lemma_member_at(b, j);
        } else if crate::json::member(b, name) is Some {
            let j = lemma_member_stands(b, name);
            assert(a.contains(b[j]));
            let i = a.index_of(b[j]);
            lemma_member_at(a, i);
        }
    }
}

/// A further member is found under no name but its own.
proof fn lemma_further_member(
    members: Seq<(Seq<char>, JsonView)>,
    place: int,
    further: (Seq<char>, JsonView),
    name: Seq<char>,
)
    requires
        0 <= place <= members.len(),
        name != further.0,
    ensures
        crate::json::member(members.insert(place, further), name) == crate::json::member(
            members,
            name,
        ),
    decreases place,
{
    let longer = members.insert(place, further);
    if place == 0 {
        assert(longer.drop_first() =~= members);
    } else {
        assert(longer[0] == members[0]);
        assert(longer.drop_first() =~= members.drop_first().insert(place - 1, further));
        lemma_further_member(members.drop_first(), place - 1, further, name);
    }
}

/// A member that is no field of a message makes no difference to what an object
/// is read as, wherever it stands.
pub proof fn law_other_members_ignored(
    members: Seq<(Seq<char>, JsonView)>,
    place: int,
    further: (Seq<char>, JsonView),
)
    requires
        0 <= place <= members.len(),
        further.0 != "msg_type"@,
        further.0 != "content"@,
        further.0 != "sdp_mid"@,
        further.0 != "sdp_mline_index"@,
        further.0 != "username_fragment"@,
    ensures
        read_alike(
            JsonView::Object(members.insert(place, further)),
            JsonView::Object(members),
        ),
{
    lemma_further_member(members, place, further, "msg_type"@);
    lemma_further_member(members, place, further, "content"@);
    lemma_further_member(members, place, further, "sdp_mid"@);
    lemma_further_member(members, place, further, "sdp_mline_index"@);
    lemma_further_member(members, place, further, "username_fragment"@);
}

/// A message that is dealt with as a chat line, an offer, an answer or a
/// candidate is a JSON object.
pub proof fn law_messages_are_objects(json: JsonView)
    ensures
        json !is Object ==> crate::server::json_dispatch(json) is Ignore,
{
}

/// A client is served until it closes the connection or the connection breaks
/// or ends, and no text that it sends ends it.
pub proof fn law_service_ends(incoming: IncomingView, parsed: Option<JsonView>)
    ensures
        crate::server::dispatched(incoming, parsed).ends() <==> (incoming is Close || incoming
            is Failed || incoming is Ended),
{
}

// ---------------------------------------------------------------------------
// Clients
// ---------------------------------------------------------------------------

/// A chat line is not sent back to the client that it came from. Every other
/// client is sent it, once.
pub proof fn law_chat_reaches_the_others(
    sends: Seq<OutgoingView>,
    text: Seq<char>,
    clients: Set<Address>,
    from: Address,
    to: Address,
)
    requires
        crate::chat::delivers(sends, text, clients.remove(from)),
        clients.contains(to),
        to != from,
    ensures
        !crate::chat::reaches(sends, from),
        exists|i: int| 0 <= i < sends.len() && #[trigger] sends[i] == (OutgoingView { to, text }),
        forall|i: int, j: int|
            0 <= i < sends.len() && 0 <= j < sends.len() && (#[trigger] sends[i]).to == to && (
            #[trigger] sends[j]).to == to ==> i == j,
{
    assert(crate::chat::reaches(sends, to));
    let i = choose|i: int| 0 <= i < sends.len() && (#[trigger] sends[i]).to == to;
    assert(sends[i] == (OutgoingView { to, text }));
}

/// Nobody hears a chat line when the one who wrote it is the only client.
pub proof fn law_chat_alone(sends: Seq<OutgoingView>, text: Seq<char>, from: Address)
    requires
        crate::chat::delivers(sends, text, set![from].remove(from)),
    ensures
        sends.len() == 0,
{
    if sends.len() > 0 {
        assert(crate::chat::reaches(sends, sends[0].to));
    }
}

/// The clients after several have come, one after the other.
pub open spec fn after_arrivals<V>(
    clients: Map<Address, V>,
    arrivals: Seq<(Address, Option<V>)>,
) -> Map<Address, V>
    decreases arrivals.len(),
{
    if arrivals.len() == 0 {
        clients
    } else {
        let last = arrivals.last();
        crate::server::taken_in(after_arrivals(clients, arrivals.drop_last()), last.0, last.1)
    }
}

/// A client that is there stays, whoever comes after it.
pub proof fn law_clients_stay<V>(
    clients: Map<Address, V>,
    arrivals: Seq<(Address, Option<V>)>,
    addr: Address,
)
    requires
        clients.dom().contains(addr),
    ensures
        after_arrivals(clients, arrivals).dom().contains(addr),
    decreases arrivals.len(),
{
    if arrivals.len() > 0 {
        law_clients_stay(clients, arrivals.drop_last(), addr);
    }
}

/// A client with which the handshake succeeded is sent texts by the sender that
/// it came with, unless another came from the same address later.
pub proof fn law_last_arrival_counts<V>(
    clients: Map<Address, V>,
    arrivals: Seq<(Address, Option<V>)>,
    i: int,
)
    requires
        0 <= i < arrivals.len(),
        arrivals[i].1 is Some,
        forall|j: int|
            i < j < arrivals.len() && #[trigger] arrivals[j].0 == arrivals[i].0 ==> arrivals[j].1
                is None,
    ensures
        after_arrivals(clients, arrivals).dom().contains(arrivals[i].0),
        after_arrivals(clients, arrivals)[arrivals[i].0] == arrivals[i].1->0,
    decreases arrivals.len(),
{
    if i < arrivals.len() - 1 {
        let before = arrivals.drop_last();
        assert forall|j: int|
            i < j < before.len() && #[trigger] before[j].0 == before[i].0 implies before[j].1
            is None by {
            assert(arrivals[j].0 == arrivals[i].0);
        }
        law_last_arrival_counts(clients, before, i);
        assert(arrivals.last() == arrivals[arrivals.len() - 1]);
    }
}

/// Who is there has been there from the start, or came and was taken in.
pub proof fn law_no_other_clients<V>(
    clients: Map<Address, V>,
    arrivals: Seq<(Address, Option<V>)>,
    addr: Address,
)
    requires
        after_arrivals(clients, arrivals).dom().contains(addr),
    ensures
        clients.dom().contains(addr) || exists|i: int|
            0 <= i < arrivals.len() && (#[trigger] arrivals[i]).0 == addr && arrivals[i].1 is Some,
    decreases arrivals.len(),
{
    if arrivals.len() > 0 {
        let before = arrivals.drop_last();
        let n = arrivals.len() - 1;
        if arrivals[n].0 == addr && arrivals[n].1 is Some {
        } else {
            law_no_other_clients(clients, before, addr);
            if !clients.dom().contains(addr) {
                let i = choose|i: int|
                    0 <= i < before.len() && (#[trigger] before[i]).0 == addr && before[i].1
                        is Some;
                assert(arrivals[i].0 == addr && arrivals[i].1 is Some);
            }
        }
    }
}

// ---------------------------------------------------------------------------
// Queues
// ---------------------------------------------------------------------------

/// What the sender of a client does after each event.
pub open spec fn sender_run<M>(sender: Sender, events: Seq<SenderEvent<M>>) -> Seq<SenderAction<M>>
    decreases events.len(),
{
    if events.len() == 0 {
        seq![]
    } else {
        let (next, action) = sender.next(events[0]);
        seq![action] + sender_run(next, events.drop_first())
    }
}

/// The messages that are handed over to be sent, in their order.
pub open spec fn handed_over<M>(actions: Seq<SenderAction<M>>) -> Seq<M>
    decreases actions.len(),
{
    if actions.len() == 0 {
        seq![]
    } else {
        match actions[0] {
            SenderAction::Send(message) => seq![message] + handed_over(actions.drop_first()),
            _ => handed_over(actions.drop_first()),
        }
    }
}

/// The messages that are received until the queue is drained, in their order.
pub open spec fn received<M>(events: Seq<SenderEvent<M>>) -> Seq<M>
    decreases events.len(),
{
    if events.len() == 0 {
        seq![]
    } else {
        match events[0] {
            SenderEvent::Received(message) => seq![message] + received(events.drop_first()),
            SenderEvent::Drained => seq![],
            _ => received(events.drop_first()),
        }
    }
}

proof fn lemma_sender_length<M>(sender: Sender, events: Seq<SenderEvent<M>>)
    ensures
        sender_run(sender, events).len() == events.len(),
    decreases events.len(),
{
    if events.len() > 0 {
        lemma_sender_length(sender.next(events[0]).0, events.drop_first());
    }
}

/// Once stopped, the sender hands over nothing.
proof fn lemma_sender_stopped<M>(events: Seq<SenderEvent<M>>)
    ensures
        handed_over(sender_run(Sender::Stopped, events)) == Seq::<M>::empty(),
    decreases events.len(),
{
    if events.len() > 0 {
        lemma_sender_stopped(events.drop_first());
        let run = sender_run(Sender::Stopped, events);
        assert(run.drop_first() =~= sender_run(Sender::Stopped, events.drop_first()));
    }
}

/// Each message that is received is handed over once, in the order in which they
/// were received, whatever came of the sends.
pub proof fn law_received_is_handed_over<M>(sender: Sender, events: Seq<SenderEvent<M>>)
    requires
        sender != Sender::Stopped,
    ensures
        handed_over(sender_run(sender, events)) == received(events),
    decreases events.len(),
{
    if events.len() > 0 {
        let next = sender.next(events[0]).0;
        let rest = events.drop_first();
        assert(sender_run(sender, events).drop_first() =~= sender_run(next, rest));
        if events[0] is Drained {
            lemma_sender_stopped(rest);
        } else {
            law_received_is_handed_over(next, rest);
        }
    }
}

/// The sender stops when the queue is drained, and for no other reason; and it
/// does not start again.
pub proof fn law_sender_stops_when_drained<M>(
    sender: Sender,
    events: Seq<SenderEvent<M>>,
    i: int,
)
    requires
        0 <= i < events.len(),
        sender != Sender::Stopped,
    ensures
        sender_run(sender, events).len() == events.len(),
        sender_run(sender, events)[i] is Stop <==> exists|j: int|
            0 <= j <= i && #[trigger] events[j] is Drained,
    decreases events.len(),
{
    let next = sender.next(events[0]).0;
    let rest = events.drop_first();
    lemma_sender_length(next, rest);
    let run = sender_run(sender, events);
    assert(run[0] == sender.next(events[0]).1);
    if events[0] is Drained {
        lemma_stays_stopped(rest);
        if i > 0 {
            assert(run[i] == sender_run(next, rest)[i - 1]);
        }
    } else if i > 0 {
        law_sender_stops_when_drained(next, rest, i - 1);
        assert(run[i] == sender_run(next, rest)[i - 1]);
        if exists|j: int| 0 <= j <= i && #[trigger] events[j] is Drained {
            let j = choose|j: int| 0 <= j <= i && #[trigger] events[j] is Drained;
            assert(rest[j - 1] is Drained);
        }
        if exists|j: int| 0 <= j <= i - 1 && #[trigger] rest[j] is Drained {
            let j = choose|j: int| 0 <= j <= i - 1 && #[trigger] rest[j] is Drained;
            assert(events[j + 1] is Drained);
        }
    }
}

proof fn lemma_stays_stopped<M>(events: Seq<SenderEvent<M>>)
    ensures
        forall|i: int|
            0 <= i < events.len() ==> #[trigger] sender_run(Sender::Stopped, events)[i] is Stop,
    decreases events.len(),
{
    if events.len() > 0 {
        lemma_stays_stopped(events.drop_first());
        lemma_sender_length(Sender::Stopped, events.drop_first());
    }
}

/// What happens while a queue is sent: each message is received, and sent or not.
/// Then the queue is drained.
pub open spec fn queue_events<M>(queue: Seq<M>, sent: Seq<bool>) -> Seq<SenderEvent<M>>
    decreases queue.len(),
{
    if queue.len() == 0 {
        seq![SenderEvent::Drained]
    } else {
        let outcome = if sent[0] {
            SenderEvent::Sent
        } else {
            SenderEvent::Failed
        };
        seq![SenderEvent::Received(queue[0]), outcome] + queue_events(
            queue.drop_first(),
            sent.drop_first(),
        )
    }
}

/// What is done while a queue is sent: each message is sent, once, and the next
/// is received. At the end there is nothing left to do.
pub open spec fn queue_actions<M>(queue: Seq<M>) -> Seq<SenderAction<M>>
    decreases queue.len(),
{
    if queue.len() == 0 {
        seq![SenderAction::Stop]
    } else {
        seq![SenderAction::Send(queue[0]), SenderAction::Receive] + queue_actions(
            queue.drop_first(),
        )
    }
}

/// A queue is sent message by message, in order, and no message is sent again,
/// whichever of the sends fail; then the sender stops.
pub proof fn law_queue_is_sent<M>(queue: Seq<M>, sent: Seq<bool>)
    requires
        sent.len() == queue.len(),
    ensures
        sender_run(Sender::Receiving, queue_events(queue, sent)) == queue_actions(queue),
        handed_over(queue_actions(queue)) == queue,
    decreases queue.len(),
{
    let events = queue_events(queue, sent);
    let actions = queue_actions(queue);
    reveal_with_fuel(sender_run, 3);
    reveal_with_fuel(handed_over, 3);
    if queue.len() > 0 {
        let later = queue_events(queue.drop_first(), sent.drop_first());
        law_queue_is_sent(queue.drop_first(), sent.drop_first());
        assert(events.drop_first().drop_first() =~= later);
        assert(actions.drop_first().drop_first() =~= queue_actions(queue.drop_first()));
        assert(sender_run(Sender::Receiving, events) =~= actions);
        assert(queue =~= seq![queue[0]] + queue.drop_first());
    } else {
        assert(sender_run(Sender::Receiving, events) =~= actions);
        assert(handed_over(actions) =~= queue);
    }
}

// ---------------------------------------------------------------------------
// Offers
// ---------------------------------------------------------------------------

/// What came of a step, and whether the client was there then.
pub struct StepView {
    pub outcome: OutcomeView,
    pub connected: bool,
}

/// What is done next after each of the steps.
pub open spec fn offer_run(
    negotiation: NegotiationView,
    steps: Seq<StepView>,
    described: Option<RTCSessionDescription>,
) -> Seq<OfferActionView>
    decreases steps.len(),
{
    if steps.len() == 0 {
        seq![]
    } else {
        let (next, action) = negotiation.next(steps[0].outcome, described, steps[0].connected);
        seq![action] + offer_run(next, steps.drop_first(), described)
    }
}

/// How an offer is answered when the client has a peer connection, every step
/// succeeds and the client is there at the end: the description is set, an answer
/// is created, that answer is set as the local description, which is read and
/// sent to the client.
pub proof fn law_known_client_answered(
    addr: Address,
    sdp: Seq<char>,
    description: RTCSessionDescription,
    answer: RTCSessionDescription,
    local: Seq<char>,
    steps: Seq<StepView>,
)
    requires
        steps.len() == 4,
        !(steps[0].outcome is Failed),
        steps[1].outcome == OutcomeView::Created(answer),
        !(steps[2].outcome is Failed),
        steps[3].outcome == OutcomeView::Described(local),
        steps[3].connected,
    ensures
        ({
            let offer = crate::negotiation::offer_from(addr, sdp);
            let first = offer.first(true, Some(description));
            &&& first.1 == OfferActionView::SetRemote(description)
            &&& offer_run(first.0, steps, Some(description)) == seq![
                OfferActionView::CreateAnswer,
                OfferActionView::SetLocal(answer),
                OfferActionView::ReadLocal,
                OfferActionView::Send(offer.answer(local)),
            ]
            &&& offer.answer(local) == (OutgoingView {
                to: addr,
                text: crate::text::object_text(
                    seq![
                        ("msg_type"@, ScalarView::Text("Answer"@)),
                        ("content"@, ScalarView::Text(local)),
                    ],
                ),
            })
        }),
{
    reveal_with_fuel(offer_run, 5);
    let offer = crate::negotiation::offer_from(addr, sdp);
    assert(offer_run(offer.at(Stage::SettingRemote), steps, Some(description)) =~= seq![
        OfferActionView::CreateAnswer,
        OfferActionView::SetLocal(answer),
        OfferActionView::ReadLocal,
        OfferActionView::Send(offer.answer(local)),
    ]);
}

/// How an offer is answered when the client has no peer connection, every step
/// succeeds and the client is there when its candidates are watched and at the
/// end: a connection is created and given the video track, its candidates are
/// watched, it is kept for the client, its tracks are sent back; from there it
/// goes on as with a client that has one.
pub proof fn law_new_client_answered(
    addr: Address,
    sdp: Seq<char>,
    description: RTCSessionDescription,
    answer: RTCSessionDescription,
    local: Seq<char>,
    steps: Seq<StepView>,
)
    requires
        steps.len() == 9,
        forall|i: int| 0 <= i < 9 ==> !((#[trigger] steps[i]).outcome is Failed),
        steps[1].connected,
        steps[6].outcome == OutcomeView::Created(answer),
        steps[8].outcome == OutcomeView::Described(local),
        steps[8].connected,
    ensures
        ({
            let offer = crate::negotiation::offer_from(addr, sdp);
            let first = offer.first(false, Some(description));
            &&& first.1 == OfferActionView::CreatePeer(crate::settings::peer_settings())
            &&& offer_run(first.0, steps, Some(description)) == seq![
                OfferActionView::AddTrack(crate::settings::video_settings()),
                OfferActionView::WatchCandidates(addr),
                OfferActionView::StorePeer(addr),
                OfferActionView::ForwardTrack,
                OfferActionView::SetRemote(description),
                OfferActionView::CreateAnswer,
                OfferActionView::SetLocal(answer),
                OfferActionView::ReadLocal,
                OfferActionView::Send(offer.answer(local)),
            ]
            &&& offer.answer(local) == (OutgoingView {
                to: addr,
                text: crate::text::object_text(
                    seq![
                        ("msg_type"@, ScalarView::Text("Answer"@)),
                        ("content"@, ScalarView::Text(local)),
                    ],
                ),
            })
        }),
{
    let offer = crate::negotiation::offer_from(addr, sdp);
    let d = Some(description);
    let later = steps.skip(5);
    assert(steps.drop_first().drop_first().drop_first().drop_first().drop_first() =~= later);
    law_known_client_answered(addr, sdp, description, answer, local, later);
    reveal_with_fuel(offer_run, 6);
    assert(offer_run(offer.at(Stage::CreatingPeer), steps, d) =~= seq![
        OfferActionView::AddTrack(crate::settings::video_settings()),
        OfferActionView::WatchCandidates(addr),
        OfferActionView::StorePeer(addr),
        OfferActionView::ForwardTrack,
        OfferActionView::SetRemote(description),
    ] + offer_run(offer.at(Stage::SettingRemote), later, d));
}

/// The negotiation is over.
pub open spec fn over(negotiation: NegotiationView) -> bool {
    negotiation.stage == Stage::Finished || negotiation.stage == Stage::Aborted
}

proof fn lemma_over(
    negotiation: NegotiationView,
    steps: Seq<StepView>,
    described: Option<RTCSessionDescription>,
)
    requires
        over(negotiation),
    ensures
        offer_run(negotiation, steps, described).len() == steps.len(),
        forall|i: int|
            0 <= i < steps.len() ==> #[trigger] offer_run(negotiation, steps, described)[i]
                is Nothing,
    decreases steps.len(),
{
    if steps.len() > 0 {
        lemma_over(negotiation, steps.drop_first(), described);
    }
}

pub(crate) proof fn lemma_run_length(
    negotiation: NegotiationView,
    steps: Seq<StepView>,
    described: Option<RTCSessionDescription>,
)
    ensures
        offer_run(negotiation, steps, described).len() == steps.len(),
    decreases steps.len(),
{
    if steps.len() > 0 {
        let next = negotiation.next(steps[0].outcome, described, steps[0].connected).0;
        lemma_run_length(next, steps.drop_first(), described);
    }
}

/// Once a step fails, nothing more is done than to give up: whatever follows,
/// the client is sent no answer from then on.
pub proof fn law_failure_ends_offer(
    negotiation: NegotiationView,
    steps: Seq<StepView>,
    described: Option<RTCSessionDescription>,
    failed: int,
)
    requires
        0 <= failed < steps.len(),
        steps[failed].outcome is Failed,
    ensures
        offer_run(negotiation, steps, described).len() == steps.len(),
        forall|i: int|
            failed <= i < steps.len() ==> {
                let action = #[trigger] offer_run(negotiation, steps, described)[i];
                action is Abort || action is Nothing
            },
    decreases steps.len(),
{
    let (next, action) = negotiation.next(steps[0].outcome, described, steps[0].connected);
    let rest = steps.drop_first();
    let run = offer_run(negotiation, steps, described);
    let run_rest = offer_run(next, rest, described);
    assert(run =~= seq![action] + run_rest);
    if failed == 0 {
        assert(over(next));
        lemma_over(next, rest, described);
    } else {
        assert(rest[failed - 1] == steps[failed]);
        law_failure_ends_offer(next, rest, described, failed - 1);
    }
    assert forall|i: int| failed <= i < steps.len() implies {
        let action = #[trigger] run[i];
        action is Abort || action is Nothing
    } by {
        if i > 0 {
            assert(run[i] == run_rest[i - 1]);
        }
    }
}

/// An answer goes only to the client that made the offer, and only when it is
/// there, as the outcome of reading the local description, and after every step
/// before has succeeded.
pub proof fn law_answer_is_earned(
    negotiation: NegotiationView,
    steps: Seq<StepView>,
    described: Option<RTCSessionDescription>,
    i: int,
)
    requires
        0 <= i < steps.len(),
        offer_run(negotiation, steps, described)[i] is Send,
    ensures
        steps[i].connected,
        steps[i].outcome matches OutcomeView::Described(sdp) && offer_run(
            negotiation,
            steps,
            described,
        )[i] == OfferActionView::Send(negotiation.answer(sdp)),
        forall|j: int| 0 <= j <= i ==> !((#[trigger] steps[j]).outcome is Failed),
        !over(negotiation),
    decreases steps.len(),
{
    let next = negotiation.next(steps[0].outcome, described, steps[0].connected).0;
    let rest = steps.drop_first();
    let run_rest = offer_run(next, rest, described);
    if over(negotiation) {
        lemma_over(negotiation, steps, described);
    }
    if i > 0 {
        lemma_run_length(next, rest, described);
        assert(offer_run(negotiation, steps, described)[i] == run_rest[i - 1]);
        assert(rest[i - 1] == steps[i]);
        law_answer_is_earned(next, rest, described, i - 1);
        assert(next.addr == negotiation.addr);
        assert forall|j: int| 0 <= j <= i implies !((#[trigger] steps[j]).outcome is Failed) by {
            if j > 0 {
                assert(rest[j - 1] == steps[j]);
            } else {
                assert(!over(next));
            }
        }
    }
}

/// What is set as the local description is the very answer that was created in
/// the step before; and what is set as the remote one is the offered description.
pub proof fn law_descriptions_are_set_as_they_are(
    negotiation: NegotiationView,
    steps: Seq<StepView>,
    described: Option<RTCSessionDescription>,
    i: int,
)
    requires
        0 <= i < steps.len(),
    ensures
        offer_run(negotiation, steps, described)[i] matches OfferActionView::SetLocal(answer)
            ==> steps[i].outcome == OutcomeView::Created(answer),
        offer_run(negotiation, steps, described)[i] matches OfferActionView::SetRemote(description)
            ==> described == Some(description),
    decreases steps.len(),
{
    let next = negotiation.next(steps[0].outcome, described, steps[0].connected).0;
    let rest = steps.drop_first();
    if i > 0 {
        lemma_run_length(next, rest, described);
        assert(offer_run(negotiation, steps, described)[i] == offer_run(next, rest, described)[i
            - 1]);
        assert(rest[i - 1] == steps[i]);
        law_descriptions_are_set_as_they_are(next, rest, described, i - 1);
    }
}

/// The place of an action in the order in which an offer is dealt with.
pub open spec fn action_place(action: OfferActionView) -> int {
    match action {
        OfferActionView::CreatePeer(_) => 0,
        OfferActionView::AddTrack(_) => 1,
        OfferActionView::WatchCandidates(_) => 2,
        OfferActionView::StorePeer(_) => 3,
        OfferActionView::ForwardTrack => 4,
        OfferActionView::SetRemote(_) => 5,
        OfferActionView::CreateAnswer => 6,
        OfferActionView::SetLocal(_) => 7,
        OfferActionView::ReadLocal => 8,
        OfferActionView::Send(_) => 9,
        OfferActionView::Abort => 10,
        OfferActionView::Nothing => 11,
    }
}

/// The place of the action that has led to a stage.
spec fn stage_place(stage: Stage) -> int {
    match stage {
        Stage::CreatingPeer => 0,
        Stage::AddingTrack => 1,
        Stage::WatchingCandidates => 2,
        Stage::StoringPeer => 3,
        Stage::ForwardingTrack => 4,
        Stage::SettingRemote => 5,
        Stage::CreatingAnswer => 6,
        Stage::SettingLocal => 7,
        Stage::ReadingLocal => 8,
        Stage::Finished => 9,
        Stage::Aborted => 10,
    }
}

proof fn lemma_later_place(
    negotiation: NegotiationView,
    steps: Seq<StepView>,
    described: Option<RTCSessionDescription>,
    i: int,
)
    requires
        0 <= i < steps.len(),
    ensures
        action_place(offer_run(negotiation, steps, described)[i]) > stage_place(negotiation.stage),
    decreases steps.len(),
{
    let next = negotiation.next(steps[0].outcome, described, steps[0].connected).0;
    let rest = steps.drop_first();
    if i > 0 {
        lemma_run_length(next, rest, described);
        assert(offer_run(negotiation, steps, described)[i] == offer_run(next, rest, described)[i
            - 1]);
        lemma_later_place(next, rest, described, i - 1);
    }
}

/// The actions come in their order, and none comes twice: the candidates are
/// watched once, the peer connection is kept once, one answer is sent.
pub proof fn law_actions_in_order(
    negotiation: NegotiationView,
    steps: Seq<StepView>,
    described: Option<RTCSessionDescription>,
    i: int,
    j: int,
)
    requires
        0 <= i < j < steps.len(),
        !(offer_run(negotiation, steps, described)[j] is Nothing),
    ensures
        action_place(offer_run(negotiation, steps, described)[i]) < action_place(
            offer_run(negotiation, steps, described)[j],
        ),
    decreases steps.len(),
{
    let (next, action) = negotiation.next(steps[0].outcome, described, steps[0].connected);
    let rest = steps.drop_first();
    let run = offer_run(negotiation, steps, described);
    let run_rest = offer_run(next, rest, described);
    lemma_run_length(next, rest, described);
    assert(run[j] == run_rest[j - 1]);
    if i > 0 {
        assert(run[i] == run_rest[i - 1]);
        law_actions_in_order(next, rest, described, i - 1, j - 1);
    } else {
        assert(run[0] == action);
        lemma_later_place(next, rest, described, j - 1);
        if over(negotiation) {
            lemma_over(negotiation, steps, described);
        }
    }
}

/// A peer connection is created only for a client that has none; and where it
/// is kept, it is kept for the client that made the offer.
pub proof fn law_one_peer_connection_each(
    addr: Address,
    sdp: Seq<char>,
    known: bool,
    steps: Seq<StepView>,
    described: Option<RTCSessionDescription>,
)
    ensures
        ({
            let first = crate::negotiation::offer_from(addr, sdp).first(known, described);
            let run = offer_run(first.0, steps, described);
            &&& first.1 is CreatePeer <==> !known
            &&& !(first.1 is StorePeer)
            &&& forall|i: int|
                0 <= i < run.len() ==> {
                    let action = #[trigger] run[i];
                    &&& !(action is CreatePeer)
                    &&& action matches OfferActionView::StorePeer(to) ==> to == addr && !known
                    &&& action matches OfferActionView::WatchCandidates(to) ==> to == addr && !known
                    &&& action is AddTrack ==> !known
                    &&& action is ForwardTrack ==> !known
                }
        }),
{
    let first = crate::negotiation::offer_from(addr, sdp).first(known, described);
    let run = offer_run(first.0, steps, described);
    lemma_own_address(first.0, steps, described);
    lemma_run_length(first.0, steps, described);
    assert forall|i: int| 0 <= i < run.len() implies {
        let action = #[trigger] run[i];
        &&& !(action is CreatePeer)
        &&& action matches OfferActionView::StorePeer(to) ==> to == addr && !known
        &&& action matches OfferActionView::WatchCandidates(to) ==> to == addr && !known
        &&& action is AddTrack ==> !known
        &&& action is ForwardTrack ==> !known
    } by {
        lemma_later_place(first.0, steps, described, i);
    }
}

proof fn lemma_own_address(
    negotiation: NegotiationView,
    steps: Seq<StepView>,
    described: Option<RTCSessionDescription>,
)
    ensures
        ({
            let run = offer_run(negotiation, steps, described);
            forall|i: int|
                0 <= i < run.len() ==> {
                    let action = #[trigger] run[i];
                    &&& action matches OfferActionView::StorePeer(to) ==> to == negotiation.addr
                    &&& action matches OfferActionView::WatchCandidates(to) ==> to
                        == negotiation.addr
                }
        }),
    decreases steps.len(),
{
    if steps.len() > 0 {
        let next = negotiation.next(steps[0].outcome, described, steps[0].connected).0;
        let rest = steps.drop_first();
        lemma_own_address(next, rest, described);
        let run = offer_run(negotiation, steps, described);
        let run_rest = offer_run(next, rest, described);
        assert forall|i: int| 0 <= i < run.len() implies {
            let action = #[trigger] run[i];
            &&& action matches OfferActionView::StorePeer(to) ==> to == negotiation.addr
            &&& action matches OfferActionView::WatchCandidates(to) ==> to == negotiation.addr
        } by {
            if i > 0 {
                assert(run[i] == run_rest[i - 1]);
            }
        }
    }
}

/// The candidates of a peer connection are watched only for a client that is
/// there then; and a peer connection is kept only right after that.
pub proof fn law_peers_are_connected(
    addr: Address,
    sdp: Seq<char>,
    known: bool,
    steps: Seq<StepView>,
    described: Option<RTCSessionDescription>,
    i: int,
)
    requires
        0 <= i < steps.len(),
    ensures
        ({
            let first = crate::negotiation::offer_from(addr, sdp).first(known, described);
            let run = offer_run(first.0, steps, described);
            &&& run[i] is WatchCandidates ==> steps[i].connected
            &&& run[i] is StorePeer ==> i > 0 && run[i - 1] is WatchCandidates && steps[i
                - 1].connected
        }),
{
    let first = crate::negotiation::offer_from(addr, sdp).first(known, described);
    lemma_watched_first(first.0, steps, described, i);
    if i > 0 {
        lemma_watched_first(first.0, steps, described, i - 1);
    }
}

proof fn lemma_watched_first(
    negotiation: NegotiationView,
    steps: Seq<StepView>,
    described: Option<RTCSessionDescription>,
    i: int,
)
    requires
        0 <= i < steps.len(),
    ensures
        ({
            let run = offer_run(negotiation, steps, described);
            &&& run[i] is WatchCandidates ==> steps[i].connected
            &&& run[i] is StorePeer ==> if i == 0 {
                negotiation.stage == Stage::WatchingCandidates
            } else {
                run[i - 1] is WatchCandidates
            }
        }),
    decreases steps.len(),
{
    let (next, action) = negotiation.next(steps[0].outcome, described, steps[0].connected);
    let rest = steps.drop_first();
    let run = offer_run(negotiation, steps, described);
    let run_rest = offer_run(next, rest, described);
    lemma_run_length(next, rest, described);
    if i > 0 {
        assert(run[i] == run_rest[i - 1]);
        assert(rest[i - 1] == steps[i]);
        lemma_watched_first(next, rest, described, i - 1);
        if i > 1 {
            assert(run[i - 1] == run_rest[i - 2]);
        } else {
            assert(run[0] == action);
        }
    }
}

/// What is done after each outcome of an offer to a client.
pub open spec fn own_run(stage: OfferStage, outcomes: Seq<OutcomeView>) -> Seq<OwnOfferActionView>
    decreases outcomes.len(),
{
    if outcomes.len() == 0 {
        seq![]
    } else {
        let (next, action) = stage.next(outcomes[0]);
        seq![action] + own_run(next, outcomes.drop_first())
    }
}

/// An offer to a client whose steps all succeed: it is created, that offer is set
/// as the local description, which is read and written down. Then there is nothing
/// left to do.
pub proof fn law_own_offer(
    offer: RTCSessionDescription,
    sdp: Seq<char>,
    outcomes: Seq<OutcomeView>,
)
    requires
        outcomes.len() == 4,
        outcomes[0] == OutcomeView::Created(offer),
        !(outcomes[1] is Failed),
        outcomes[2] == OutcomeView::Described(sdp),
    ensures
        own_run(OfferStage::CreatingOffer, outcomes) == seq![
            OwnOfferActionView::SetLocal(offer),
            OwnOfferActionView::ReadLocal,
            OwnOfferActionView::Offer(
                crate::message::content_text(ContentView { msg_type: "Offer"@, content: sdp }),
            ),
            OwnOfferActionView::Nothing,
        ],
{
    reveal_with_fuel(own_run, 5);
}

/// Once a step of an offer to a client fails, nothing more is done than to give up.
pub proof fn law_failure_ends_own_offer(
    stage: OfferStage,
    outcomes: Seq<OutcomeView>,
    failed: int,
)
    requires
        0 <= failed < outcomes.len(),
        outcomes[failed] is Failed,
    ensures
        own_run(stage, outcomes).len() == outcomes.len(),
        forall|i: int|
            failed <= i < outcomes.len() ==> {
                let action = #[trigger] own_run(stage, outcomes)[i];
                action is Abort || action is Nothing
            },
    decreases outcomes.len(),
{
    let (next, action) = stage.next(outcomes[0]);
    let rest = outcomes.drop_first();
    let run = own_run(stage, outcomes);
    let run_rest = own_run(next, rest);
    assert(run =~= seq![action] + run_rest);
    if failed == 0 {
        lemma_own_over(next, rest);
    } else {
        assert(rest[failed - 1] == outcomes[failed]);
        law_failure_ends_own_offer(next, rest, failed - 1);
    }
    assert forall|i: int| failed <= i < outcomes.len() implies {
        let action = #[trigger] run[i];
        action is Abort || action is Nothing
    } by {
        if i > 0 {
            assert(run[i] == run_rest[i - 1]);
        }
    }
}

proof fn lemma_own_over(stage: OfferStage, outcomes: Seq<OutcomeView>)
    requires
        stage == OfferStage::Finished || stage == OfferStage::Aborted,
    ensures
        own_run(stage, outcomes).len() == outcomes.len(),
        forall|i: int|
            0 <= i < outcomes.len() ==> #[trigger] own_run(stage, outcomes)[i] is Nothing,
    decreases outcomes.len(),
{
    if outcomes.len() > 0 {
        lemma_own_over(stage, outcomes.drop_first());
    }
}

/// A candidate of which the server tells a client would be added as it is, were
/// the client to tell it back: `value` is what the notice is read as.
pub proof fn law_candidate_told_back(value: JsonView, init: CandidateInitView)
    requires
        crate::json::holds_fields(
            value,
            crate::message::candidate_fields(crate::negotiation::notice_of(init)),
        ),
    ensures
        crate::server::json_dispatch(value) == crate::server::DispatchView::IceCandidate(value),
        crate::message::candidate_of(value) matches Some(message)
            && crate::negotiation::told_by(message) == init,
{
    let notice = crate::negotiation::notice_of(init);
    law_candidate_read_back(value, notice);
    law_type_names(MessageType::IceCandidate, notice.msg_type);
}

/// What is set as the local description is the very offer that was created in
/// the step before.
pub proof fn law_own_offer_is_set_as_it_is(
    stage: OfferStage,
    outcomes: Seq<OutcomeView>,
    i: int,
)
    requires
        0 <= i < outcomes.len(),
    ensures
        own_run(stage, outcomes).len() == outcomes.len(),
        own_run(stage, outcomes)[i] matches OwnOfferActionView::SetLocal(offer) ==> outcomes[i]
            == OutcomeView::Created(offer),
    decreases outcomes.len(),
{
    let next = stage.next(outcomes[0]).0;
    let rest = outcomes.drop_first();
    if rest.len() > 0 {
        law_own_offer_is_set_as_it_is(
            next,
            rest,
            if i > 0 {
                i - 1
            } else {
                0
            },
        );
    } else {
        assert(own_run(next, rest).len() == 0);
    }
    if i > 0 {
        assert(own_run(stage, outcomes)[i] == own_run(next, rest)[i - 1]);
        assert(rest[i - 1] == outcomes[i]);
    }
}

/// The texts sent for a list of found candidates, one after the other; `None`
/// stands for the end of the candidates.
pub open spec fn all_told(list: Seq<Option<LocalCandidateView>>) -> Seq<Seq<char>>
    decreases list.len(),
{
    if list.len() == 0 {
        seq![]
    } else {
        all_told(list.drop_last()) + crate::negotiation::told(list.last())
    }
}

/// For a list of found candidates the client is sent one text for each that can
/// be told, in their order, and none for the end. If all of them can be told,
/// there are as many texts as candidates.
pub proof fn law_candidates_told_in_order(list: Seq<Option<LocalCandidateView>>)
    ensures
        all_told(list) == list.filter(
            |found: Option<LocalCandidateView>| crate::negotiation::describable(found),
        ).map_values(|found: Option<LocalCandidateView>| crate::negotiation::found_text(found)),
        (forall|i: int|
            0 <= i < list.len() && (#[trigger] list[i]) is Some ==> crate::negotiation::describable(
                list[i],
            )) ==> all_told(list).len() == list.filter(
            |found: Option<LocalCandidateView>| found is Some,
        ).len(),
    decreases list.len(),
{
    reveal(Seq::filter);
    if list.len() > 0 {
        let before = list.drop_last();
        law_candidates_told_in_order(before);
        if forall|i: int|
            0 <= i < list.len() && (#[trigger] list[i]) is Some ==> crate::negotiation::describable(
                list[i],
            ) {
            assert forall|i: int| 0 <= i < before.len() && (#[trigger] before[i])
                is Some implies crate::negotiation::describable(before[i]) by {
                assert(before[i] == list[i]);
            }
            assert(list.last() == list[list.len() - 1]);
        }
    }
}

/// What is sent for two lists, one after the other, is what is sent for the
/// first and then what is sent for the second.
pub proof fn law_candidates_told_one_by_one(
    first: Seq<Option<LocalCandidateView>>,
    second: Seq<Option<LocalCandidateView>>,
)
    ensures
        all_told(first + second) == all_told(first) + all_told(second),
    decreases second.len(),
{
    if second.len() == 0 {
        assert(first + second =~= first);
    } else {
        assert((first + second).drop_last() =~= first + second.drop_last());
        law_candidates_told_one_by_one(first, second.drop_last());
    }
}

// ---------------------------------------------------------------------------
// Tracks
// ---------------------------------------------------------------------------

/// What the relay of a track does after each event.
pub open spec fn relay_run(relay: Relay, events: Seq<PacketEvent>) -> Seq<RelayAction>
    decreases events.len(),
{
    if events.len() == 0 {
        seq![]
    } else {
        seq![relay.next(events[0]).1] + relay_run(relay.next(events[0]).0, events.drop_first())
    }
}

/// The relay's actions after events of which all up to the last one succeed.
proof fn lemma_relay(relay: Relay, events: Seq<PacketEvent>, i: int)
    requires
        relay != Relay::Stopped,
        0 <= i < events.len(),
        forall|j: int| 0 <= j < i ==> #[trigger] events[j] == PacketEvent::Done,
    ensures
        relay_run(relay, events).len() == events.len(),
        relay_run(relay, events)[i] == ({
            let reading = (relay == Relay::Reading) == (i % 2 == 0);
            if events[i] == PacketEvent::Done {
                if reading {
                    RelayAction::Write
                } else {
                    RelayAction::Read
                }
            } else if reading {
                RelayAction::Stop
            } else {
                RelayAction::Report
            }
        }),
    decreases events.len(),
{
    let next = relay.next(events[0]).0;
    let rest = events.drop_first();
    lemma_relay_length(next, rest);
    if i > 0 {
        assert(events[0] == PacketEvent::Done);
        assert forall|j: int| 0 <= j < i - 1 implies #[trigger] rest[j] == PacketEvent::Done by {
            assert(rest[j] == events[j + 1]);
        }
        lemma_relay(next, rest, i - 1);
        assert(relay_run(relay, events)[i] == relay_run(next, rest)[i - 1]);
        assert(rest[i - 1] == events[i]);
    }
}

proof fn lemma_relay_length(relay: Relay, events: Seq<PacketEvent>)
    ensures
        relay_run(relay, events).len() == events.len(),
    decreases events.len(),
{
    if events.len() > 0 {
        lemma_relay_length(relay.next(events[0]).0, events.drop_first());
    }
}

/// As long as nothing fails, each packet that is read is written before the next
/// is read. The first failure ends the relay, and is reported if it was in writing.
pub proof fn law_relay_alternates(events: Seq<PacketEvent>, i: int)
    requires
        0 <= i < events.len(),
        forall|j: int| 0 <= j < i ==> #[trigger] events[j] == PacketEvent::Done,
    ensures
        relay_run(Relay::Reading, events)[i] == if events[i] == PacketEvent::Done {
            if i % 2 == 0 {
                RelayAction::Write
            } else {
                RelayAction::Read
            }
        } else if i % 2 == 0 {
            RelayAction::Stop
        } else {
            RelayAction::Report
        },
{
    lemma_relay(Relay::Reading, events, i);
}

/// The relay, once it has stopped, does not start again.
pub proof fn law_relay_stays_stopped(relay: Relay, event: PacketEvent, later: PacketEvent)
    requires
        relay.next(event).0 == Relay::Stopped,
    ensures
        relay.next(event).0.next(later) == (Relay::Stopped, RelayAction::Stop),
{
}

/// What is done after each step of adding tracks late.
pub open spec fn late_run(state: LateTracks, successes: Seq<bool>) -> Seq<LateActionView>
    decreases successes.len(),
{
    if successes.len() == 0 {
        seq![]
    } else {
        let (next, action) = state.next(successes[0]);
        seq![action] + late_run(next, successes.drop_first())
    }
}

/// How many steps of adding tracks late are behind.
spec fn steps_done(state: LateTracks) -> int {
    match state {
        LateTracks::Waiting => 0,
        LateTracks::AddingAudio => 1,
        LateTracks::AddingVideo => 2,
        _ => 3,
    }
}

/// The action that follows on so many steps that succeeded.
pub open spec fn late_step(steps: int) -> LateActionView {
    if steps == 1 {
        LateActionView::AddTrack(crate::settings::audio_settings())
    } else if steps == 2 {
        LateActionView::AddTrack(crate::settings::video_settings())
    } else if steps == 3 {
        LateActionView::Report
    } else {
        LateActionView::Nothing
    }
}

proof fn lemma_late(state: LateTracks, successes: Seq<bool>, i: int)
    requires
        state != LateTracks::Aborted,
        0 <= i < successes.len(),
        forall|j: int| 0 <= j < i ==> #[trigger] successes[j],
    ensures
        late_run(state, successes).len() == successes.len(),
        late_run(state, successes)[i] == if successes[i] {
            late_step(steps_done(state) + i + 1)
        } else if steps_done(state) + i < 3 {
            LateActionView::Abort
        } else {
            LateActionView::Nothing
        },
    decreases successes.len(),
{
    let next = state.next(successes[0]).0;
    let rest = successes.drop_first();
    lemma_late_length(next, rest);
    if i > 0 {
        assert(successes[0]);
        assert forall|j: int| 0 <= j < i - 1 implies #[trigger] rest[j] by {
            assert(rest[j] == successes[j + 1]);
        }
        lemma_late(next, rest, i - 1);
        assert(late_run(state, successes)[i] == late_run(next, rest)[i - 1]);
        assert(rest[i - 1] == successes[i]);
    }
}

proof fn lemma_late_length(state: LateTracks, successes: Seq<bool>)
    ensures
        late_run(state, successes).len() == successes.len(),
    decreases successes.len(),
{
    if successes.len() > 0 {
        lemma_late_length(state.next(successes[0]).0, successes.drop_first());
    }
}

/// Late tracks: as long as nothing fails, the audio track is added, then the
/// video track, then it is reported, and then there is nothing left to do. A
/// step before the report that fails ends it.
pub proof fn law_late_tracks(successes: Seq<bool>, i: int)
    requires
        0 <= i < successes.len(),
        forall|j: int| 0 <= j < i ==> #[trigger] successes[j],
    ensures
        late_run(LateTracks::Waiting, successes)[i] == if successes[i] {
            late_step(i + 1)
        } else if i < 3 {
            LateActionView::Abort
        } else {
            LateActionView::Nothing
        },
{
    lemma_late(LateTracks::Waiting, successes, i);
}

/// Late tracks, once given up or added, are not taken up again.
pub proof fn law_late_tracks_end(state: LateTracks, succeeded: bool, later: bool)
    requires
        state.next(succeeded).1 is Abort || state.next(succeeded).1 is Report || state.next(
            succeeded,
        ).1 is Nothing,
    ensures
        state.next(succeeded).0.next(later) == (state.next(succeeded).0, LateActionView::Nothing),
{
}

// ---------------------------------------------------------------------------
// Listening
// ---------------------------------------------------------------------------

/// The listener after some events.
pub open spec fn listener_after(listener: Listener, events: Seq<ListenEvent>) -> Listener
    decreases events.len(),
{
    if events.len() == 0 {
        listener
    } else {
        listener_after(listener.next(events[0]).0, events.drop_first())
    }
}

/// A server that is bound to its address accepts clients for ever: no client
/// that cannot be accepted ends it.
pub proof fn law_listening_goes_on(events: Seq<ListenEvent>, event: ListenEvent)
    ensures
        listener_after(Listener::Accepting, events) == Listener::Accepting,
        listener_after(Listener::Accepting, events).next(event).1 == if event
            == ListenEvent::Done {
            ListenAction::Serve
        } else {
            ListenAction::ReportClient
        },
    decreases events.len(),
{
    if events.len() > 0 {
        law_listening_goes_on(events.drop_first(), event);
    }
}

/// A server that cannot be bound to its address serves nobody.
pub proof fn law_unbound_serves_nobody(events: Seq<ListenEvent>, event: ListenEvent)
    ensures
        Listener::Binding.next(ListenEvent::Failed).1 == ListenAction::ReportAddress,
        listener_after(Listener::Binding.next(ListenEvent::Failed).0, events).next(event)
            == (Listener::Closed, ListenAction::Stop),
{
    lemma_closed(events);
}

proof fn lemma_closed(events: Seq<ListenEvent>)
    ensures
        listener_after(Listener::Closed, events) == Listener::Closed,
    decreases events.len(),
{
    if events.len() > 0 {
        lemma_closed(events.drop_first());
    }
}

} // verus!
