//! Serving one client: what is done about each thing that arrives from it, and
//! what all of it together comes to.

use vstd::prelude::*;
use webrtc::peer_connection::sdp::session_description::RTCSessionDescription;

use crate::chat::{process_chat_message, Outgoing};
use crate::laws::StepView;
use crate::negotiation::{
    process_answer_message, process_icecandidate_message, process_offer_message, AnswerAction,
    CandidateInit, CandidateInitView, Negotiation, NegotiationView, OfferAction, OfferActionView,
    OutcomeView,
};
use crate::registry::{Address, Registry};
use crate::server::{handle_messages, Dispatch, DispatchView, Incoming, IncomingView};

verus! {

// ---------------------------------------------------------------------------
// What is done about one thing
// ---------------------------------------------------------------------------

/// What is done about something that arrived.
#[derive(Debug)]
pub enum Response {
    /// Send these texts.
    Tell(Vec<Outgoing>),
    /// Deal with an offer; this is the first step.
    Negotiate(Negotiation, OfferAction),
    /// Set the remote description of the client's peer connection.
    SetRemote(RTCSessionDescription),
    /// Add a candidate to the client's peer connection.
    AddCandidate(CandidateInit),
    /// Give up on the connection.
    Abort,
    /// Report that a track is announced.
    ReportTrack,
    /// Report a message of a type that there is not.
    ReportType,
    Nothing,
    /// Report that the client closes the connection, and serve it no longer.
    ReportClose,
    /// Report that the connection broke, and serve the client no longer.
    ReportFailure,
    /// Serve the client no longer.
    Stop,
}

/// What is done, seen as a mathematical value.
pub enum ResponseView {
    /// The text is sent to each of these clients, once.
    Tell(Seq<char>, Set<Address>),
    Negotiate(NegotiationView, OfferActionView),
    SetRemote(RTCSessionDescription),
    AddCandidate(CandidateInitView),
    Abort,
    ReportTrack,
    ReportType,
    Nothing,
    ReportClose,
    ReportFailure,
    Stop,
}

/// The response does what the view says. In which order the clients are told is
/// left open; to tell nobody is to do nothing.
pub open spec fn carries_out(response: Response, view: ResponseView) -> bool {
    match response {
        Response::Tell(sends) => match view {
            ResponseView::Tell(text, to) => crate::chat::delivers(
                crate::chat::sends_view(sends@),
                text,
                to,
            ),
            _ => view is Nothing && sends@.len() == 0,
        },
        Response::Negotiate(negotiation, action) => view == ResponseView::Negotiate(
            negotiation@,
            action@,
        ),
        Response::SetRemote(description) => view == ResponseView::SetRemote(description),
        Response::AddCandidate(init) => view == ResponseView::AddCandidate(init@),
        Response::Abort => view is Abort,
        Response::ReportTrack => view is ReportTrack,
        Response::ReportType => view is ReportType,
        Response::Nothing => view is Nothing,
        Response::ReportClose => view is ReportClose,
        Response::ReportFailure => view is ReportFailure,
        Response::Stop => view is Stop,
    }
}

/// What is done about a message that was dispatched, given who is connected and
/// who has a peer connection.
pub open spec fn response_to(
    dispatch: DispatchView,
    addr: Address,
    clients: Set<Address>,
    peers: Set<Address>,
) -> ResponseView {
    match dispatch {
        DispatchView::Chat(json) => match crate::message::content_of(json) {
            Some(chat) => ResponseView::Tell(
                crate::message::content_text(chat),
                clients.remove(addr),
            ),
            None => ResponseView::Nothing,
        },
        DispatchView::Offer(json) => match crate::message::content_of(json) {
            Some(offer) => {
                let first = crate::negotiation::offer_from(addr, offer.content).first(
                    peers.contains(addr),
                    crate::negotiation::offer_description(offer.content),
                );
                ResponseView::Negotiate(first.0, first.1)
            },
            None => ResponseView::Nothing,
        },
        DispatchView::Answer(json) => match crate::message::content_of(json) {
            Some(answer) => if peers.contains(addr) {
                match crate::negotiation::answer_description(answer.content) {
                    Some(description) => ResponseView::SetRemote(description),
                    None => ResponseView::Abort,
                }
            } else {
                ResponseView::Nothing
            },
            None => ResponseView::Nothing,
        },
        DispatchView::IceCandidate(json) => match crate::message::candidate_of(json) {
            Some(message) => if peers.contains(addr) {
                ResponseView::AddCandidate(crate::negotiation::told_by(message))
            } else {
                ResponseView::Nothing
            },
            None => ResponseView::Nothing,
        },
        DispatchView::NewVideoTrack => ResponseView::ReportTrack,
        DispatchView::UnknownType => ResponseView::ReportType,
        DispatchView::Ignore => ResponseView::Nothing,
        DispatchView::ReportClose => ResponseView::ReportClose,
        DispatchView::ReportFailure => ResponseView::ReportFailure,
        DispatchView::Stop => ResponseView::Stop,
    }
}

/// How something that arrived is dispatched.
pub open spec fn dispatch_of(incoming: IncomingView) -> DispatchView {
    crate::server::dispatched(
        incoming,
        crate::json::json_text(crate::server::incoming_text(incoming)),
    )
}

/// Decides what is done about something that arrived from a client.
pub fn respond<V, P>(
    incoming: Incoming,
    web_socket_clients: &Registry<V>,
    webrtc_clients: &Registry<P>,
    addr: &Address,
) -> (response: Response)
    ensures
        carries_out(
            response,
            response_to(
                dispatch_of(incoming@),
                *addr,
                web_socket_clients@.dom(),
                webrtc_clients@.dom(),
            ),
        ),
{
    match handle_messages(incoming) {
        Dispatch::Chat(json) => Response::Tell(
            process_chat_message(&json, web_socket_clients, addr),
        ),
        Dispatch::Offer(json) => match process_offer_message(&json, webrtc_clients, addr) {
            Some((negotiation, action)) => Response::Negotiate(negotiation, action),
            None => Response::Nothing,
        },
        Dispatch::Answer(json) => match process_answer_message(&json, webrtc_clients, addr) {
            AnswerAction::SetRemote(description) => Response::SetRemote(description),
            AnswerAction::Abort => Response::Abort,
            AnswerAction::Ignore => Response::Nothing,
        },
        Dispatch::IceCandidate(json) => match process_icecandidate_message(
            &json,
            webrtc_clients,
            addr,
        ) {
            Some(init) => Response::AddCandidate(init),
            None => Response::Nothing,
        },
        Dispatch::NewVideoTrack => Response::ReportTrack,
        Dispatch::UnknownType => Response::ReportType,
        Dispatch::Ignore => Response::Nothing,
        Dispatch::ReportClose => Response::ReportClose,
        Dispatch::ReportFailure => Response::ReportFailure,
        Dispatch::Stop => Response::Stop,
    }
}

impl ResponseView {
    /// The client is served no longer.
    pub open spec fn ends(self) -> bool {
        self is ReportClose || self is ReportFailure || self is Stop
    }
}

impl Response {
    /// The client is served no longer.
    pub open spec fn ends(self) -> bool {
        self is ReportClose || self is ReportFailure || self is Stop
    }

    /// Whether the client is served no longer.
    pub fn stops(&self) -> (stops: bool)
        ensures
            stops == self.ends(),
            forall|view: ResponseView| #[trigger] carries_out(*self, view) ==> stops == view.ends(),
    {
        match self {
            Response::ReportClose => true,
            Response::ReportFailure => true,
            Response::Stop => true,
            _ => false,
        }
    }
}

/// The peer connections after a step of dealing with an offer.
pub open spec fn peers_after<P>(
    peers: Map<Address, P>,
    action: OfferActionView,
    peer: P,
) -> Map<Address, P> {
    match action {
        OfferActionView::StorePeer(of) => peers.insert(of, peer),
        _ => peers,
    }
}

/// Keeps the peer connection where the step is to keep it.
pub fn keep_peer<P>(webrtc_clients: &mut Registry<P>, action: &OfferAction, peer: P)
    ensures
        final(webrtc_clients)@ == peers_after(old(webrtc_clients)@, action@, peer),
        action matches OfferAction::StorePeer(of) ==> final(webrtc_clients)@ == old(
            webrtc_clients,
        )@.insert(*of, peer),
        !(action is StorePeer) ==> final(webrtc_clients)@ == old(webrtc_clients)@,
{
    if let OfferAction::StorePeer(of) = action {
        webrtc_clients.insert(*of, peer);
    }
}

// ---------------------------------------------------------------------------
// What is done about all that arrives
// ---------------------------------------------------------------------------

/// Something that arrives, and what the peer connection makes of it.
pub struct Frame<P> {
    pub incoming: IncomingView,
    /// The peer connection that is created, should one be.
    pub created: P,
    /// What comes of each step, should it be an offer.
    pub outcomes: Seq<OutcomeView>,
    /// Whether an answer or a candidate is taken.
    pub taken: bool,
}

/// Who is connected, and who has which peer connection.
#[verifier::ext_equal]
pub struct World<V, P> {
    pub clients: Map<Address, V>,
    pub peers: Map<Address, P>,
}

/// Something that is done.
pub enum Deed<P> {
    /// The text is sent to each of these clients, once.
    Tell(Seq<char>, Set<Address>),
    /// A step of dealing with an offer, on this peer connection.
    Step(P, OfferActionView),
    /// The remote description of the peer connection is set.
    SetRemote(P, RTCSessionDescription),
    /// The candidate is added to the peer connection.
    AddCandidate(P, CandidateInitView),
    /// The connection is given up.
    Abort,
    /// It is reported what arrived.
    Report(IncomingView),
}

impl<P> Frame<P> {
    pub open spec fn response<V>(self, addr: Address, world: World<V, P>) -> ResponseView {
        response_to(dispatch_of(self.incoming), addr, world.clients.dom(), world.peers.dom())
    }

    /// The frame is an offer with a description in it.
    pub open spec fn offers(self) -> bool {
        dispatch_of(self.incoming) matches DispatchView::Offer(json)
            && crate::message::content_of(json) is Some
    }

    /// The client closes the connection, or it breaks or ends.
    pub open spec fn closes(self) -> bool {
        self.incoming is Close || self.incoming is Failed || self.incoming is Ended
    }

    /// All the steps of dealing with the frame, if it is an offer.
    pub open spec fn steps<V>(self, addr: Address, world: World<V, P>) -> Seq<OfferActionView> {
        match self.response(addr, world) {
            ResponseView::Negotiate(negotiation, action) => seq![action] + crate::laws::offer_run(
                negotiation,
                self.outcomes.map_values(
                    |outcome: OutcomeView|
                        StepView { outcome, connected: world.clients.dom().contains(addr) },
                ),
                crate::negotiation::offer_description(negotiation.sdp),
            ),
            _ => seq![],
        }
    }

    /// The peer connection that the frame is about: the client's, or the one
    /// that is created.
    pub open spec fn peer<V>(self, addr: Address, world: World<V, P>) -> P {
        if world.peers.dom().contains(addr) {
            world.peers[addr]
        } else {
            self.created
        }
    }

    /// What is done about the frame.
    pub open spec fn deeds<V>(self, addr: Address, world: World<V, P>) -> Seq<Deed<P>> {
        let peer = self.peer(addr, world);
        match self.response(addr, world) {
            ResponseView::Tell(text, to) => seq![Deed::Tell(text, to)],
            ResponseView::Negotiate(_, _) => self.steps(addr, world).map_values(
                |action: OfferActionView| Deed::Step(peer, action),
            ),
            ResponseView::SetRemote(description) => seq![Deed::SetRemote(peer, description)],
            ResponseView::AddCandidate(init) => seq![Deed::AddCandidate(peer, init)],
            ResponseView::Abort => seq![Deed::Abort],
            ResponseView::Nothing => seq![],
            ResponseView::Stop => seq![],
            _ => seq![Deed::Report(self.incoming)],
        }
    }

    /// Who is connected and who has which peer connection after the frame.
    pub open spec fn world_after<V>(self, addr: Address, world: World<V, P>) -> World<V, P> {
        World {
            clients: world.clients,
            peers: peers_after_all(world.peers, self.steps(addr, world), self.created),
        }
    }

    /// Dealing with the frame fails, and the connection is given up.
    pub open spec fn fails<V>(self, addr: Address, world: World<V, P>) -> bool {
        match self.response(addr, world) {
            ResponseView::Negotiate(_, _) => exists|i: int|
                0 <= i < self.steps(addr, world).len() && #[trigger] self.steps(addr, world)[i]
                    is Abort,
            ResponseView::SetRemote(_) => !self.taken,
            ResponseView::AddCandidate(_) => !self.taken,
            ResponseView::Abort => true,
            _ => false,
        }
    }
}

/// The peer connections after several steps of dealing with an offer.
pub open spec fn peers_after_all<P>(
    peers: Map<Address, P>,
    actions: Seq<OfferActionView>,
    peer: P,
) -> Map<Address, P>
    decreases actions.len(),
{
    if actions.len() == 0 {
        peers
    } else {
        peers_after_all(peers_after(peers, actions[0], peer), actions.drop_first(), peer)
    }
}

/// What serving a client has come to.
pub struct Service<V, P> {
    pub deeds: Seq<Deed<P>>,
    pub world: World<V, P>,
    /// The client is served no longer.
    pub over: bool,
}

/// What it comes to to serve a client what arrives from it, while nobody else
/// comes or is served.
pub open spec fn service<V, P>(
    addr: Address,
    world: World<V, P>,
    frames: Seq<Frame<P>>,
) -> Service<V, P>
    decreases frames.len(),
{
    if frames.len() == 0 {
        Service { deeds: seq![], world, over: false }
    } else {
        let frame = frames[0];
        let deeds = frame.deeds(addr, world);
        let after = frame.world_after(addr, world);
        if frame.response(addr, world).ends() || frame.fails(addr, world) {
            Service { deeds, world: after, over: true }
        } else {
            let rest = service(addr, after, frames.drop_first());
            Service { deeds: deeds + rest.deeds, world: rest.world, over: rest.over }
        }
    }
}

/// A frame ends the service just if it closes the connection or cannot be dealt with.
pub proof fn law_frame_ends_service<V, P>(addr: Address, world: World<V, P>, frame: Frame<P>)
    ensures
        frame.response(addr, world).ends() <==> frame.closes(),
        service(addr, world, seq![frame]).over <==> frame.closes() || frame.fails(addr, world),
{
    reveal_with_fuel(service, 2);
}

/// To serve two streams of frames, one after the other, is to serve the first
/// and then the second, with the same deeds in the same order; unless the first
/// ends the service, and then the second is not served.
pub proof fn law_streams_are_served_in_turn<V, P>(
    addr: Address,
    world: World<V, P>,
    first: Seq<Frame<P>>,
    second: Seq<Frame<P>>,
)
    ensures
        ({
            let one = service(addr, world, first);
            let two = service(addr, one.world, second);
            let both = service(addr, world, first + second);
            if one.over {
                both == one
            } else {
                &&& both.deeds == one.deeds + two.deeds
                &&& both.world == two.world
                &&& both.over == two.over
            }
        }),
    decreases first.len(),
{
    let both = first + second;
    if first.len() == 0 {
        assert(both =~= second);
        assert(service(addr, world, both).deeds =~= Seq::<Deed<P>>::empty() + service(
            addr,
            world,
            second,
        ).deeds);
    } else {
        let after = first[0].world_after(addr, world);
        assert(both[0] == first[0]);
        assert(both.drop_first() =~= first.drop_first() + second);
        law_streams_are_served_in_turn(addr, after, first.drop_first(), second);
        if !service(addr, world, first).over {
            let one = service(addr, world, first);
            let two = service(addr, one.world, second);
            assert(service(addr, world, both).deeds =~= one.deeds + two.deeds);
        }
    }
}

/// To serve a client takes in nobody and lets nobody go, however it ends.
pub proof fn law_service_keeps_clients<V, P>(
    addr: Address,
    world: World<V, P>,
    frames: Seq<Frame<P>>,
)
    ensures
        service(addr, world, frames).world.clients == world.clients,
    decreases frames.len(),
{
    if frames.len() > 0 {
        law_service_keeps_clients(
            addr,
            frames[0].world_after(addr, world),
            frames.drop_first(),
        );
    }
}

/// Steps that keep a peer connection for one client only.
pub(crate) proof fn lemma_kept<P>(
    peers: Map<Address, P>,
    actions: Seq<OfferActionView>,
    addr: Address,
    peer: P,
)
    requires
        forall|i: int|
            0 <= i < actions.len() ==> ((#[trigger] actions[i]) matches OfferActionView::StorePeer(
                of,
            ) ==> of == addr),
    ensures
        ({
            let after = peers_after_all(peers, actions, peer);
            &&& after == peers || after == peers.insert(addr, peer)
            &&& (exists|i: int| 0 <= i < actions.len() && (#[trigger] actions[i]) is StorePeer)
                ==> after == peers.insert(addr, peer)
            &&& (forall|i: int|
                0 <= i < actions.len() ==> !((#[trigger] actions[i]) is StorePeer)) ==> after
                == peers
        }),
    decreases actions.len(),
{
    if actions.len() > 0 {
        let rest = actions.drop_first();
        assert forall|i: int| 0 <= i < rest.len() implies ((
        #[trigger] rest[i]) matches OfferActionView::StorePeer(of) ==> of == addr) by {
            assert(rest[i] == actions[i + 1]);
        }
        lemma_kept(peers_after(peers, actions[0], peer), rest, addr, peer);
        assert(actions[0] matches OfferActionView::StorePeer(of) ==> of == addr);
        assert(peers.insert(addr, peer).insert(addr, peer) =~= peers.insert(addr, peer));
        if exists|i: int| 0 <= i < actions.len() && (#[trigger] actions[i]) is StorePeer {
            let i = choose|i: int| 0 <= i < actions.len() && (#[trigger] actions[i]) is StorePeer;
            if i > 0 {
                assert(rest[i - 1] is StorePeer);
            }
        }
        if forall|i: int| 0 <= i < actions.len() ==> !((#[trigger] actions[i]) is StorePeer) {
            assert(!(actions[0] is StorePeer));
            assert forall|i: int| 0 <= i < rest.len() implies !((#[trigger] rest[i])
                is StorePeer) by {
                assert(rest[i] == actions[i + 1]);
            }
        }
    }
}

/// Of the peer connections a frame changes at most this: that a client which had
/// none has the one that was created, and then the frame was an offer.
pub proof fn law_frame_and_peers<V, P>(addr: Address, world: World<V, P>, frame: Frame<P>)
    ensures
        ({
            let after = frame.world_after(addr, world).peers;
            after == world.peers || {
                &&& frame.offers()
                &&& !world.peers.dom().contains(addr)
                &&& after == world.peers.insert(addr, frame.created)
            }
        }),
{
    let actions = frame.steps(addr, world);
    if let ResponseView::Negotiate(negotiation, first) = frame.response(addr, world) {
        let known = world.peers.dom().contains(addr);
        let described = crate::negotiation::offer_description(negotiation.sdp);
        let steps = frame.outcomes.map_values(
            |outcome: OutcomeView|
                StepView { outcome, connected: world.clients.dom().contains(addr) },
        );
        let run = crate::laws::offer_run(negotiation, steps, described);
        crate::laws::law_one_peer_connection_each(
            addr,
            negotiation.sdp,
            known,
            steps,
            described,
        );
        assert(actions == seq![first] + run);
        assert forall|i: int| 0 <= i < actions.len() implies ((
        #[trigger] actions[i]) matches OfferActionView::StorePeer(of) ==> of == addr && !known) by {
            if i > 0 {
                assert(actions[i] == run[i - 1]);
            }
        }
    }
    lemma_kept(world.peers, actions, addr, frame.created);
}

/// Over a whole stream the peer connections that there are stay, and at most one
/// is added: one that was created, for the client that is served.
pub proof fn law_peers_only_grow<V, P>(addr: Address, world: World<V, P>, frames: Seq<Frame<P>>)
    ensures
        ({
            let after = service(addr, world, frames).world.peers;
            after == world.peers || {
                &&& !world.peers.dom().contains(addr)
                &&& exists|i: int|
                    0 <= i < frames.len() && (#[trigger] frames[i]).offers() && after
                        == world.peers.insert(addr, frames[i].created)
            }
        }),
    decreases frames.len(),
{
    if frames.len() > 0 {
        let frame = frames[0];
        let next = frame.world_after(addr, world);
        let rest = frames.drop_first();
        law_frame_and_peers(addr, world, frame);
        law_peers_only_grow(addr, next, rest);
        let after = service(addr, world, frames).world.peers;
        let later = service(addr, next, rest).world.peers;
        if later != next.peers {
            let i = choose|i: int|
                0 <= i < rest.len() && (#[trigger] rest[i]).offers() && later
                    == next.peers.insert(addr, rest[i].created);
            assert(rest[i] == frames[i + 1]);
            assert(after == next.peers || after == world.peers.insert(
                addr,
                frames[i + 1].created,
            ));
        }
    }
}

/// No frame before this one closes the connection.
pub open spec fn reached<P>(frames: Seq<Frame<P>>, i: int) -> bool {
    forall|j: int| 0 <= j < i ==> !(#[trigger] frames[j]).closes()
}

/// Where no frame that is reached is an offer with a description in it, the peer
/// connections are what they were.
pub proof fn law_no_offer_no_peer<V, P>(addr: Address, world: World<V, P>, frames: Seq<Frame<P>>)
    requires
        forall|i: int|
            0 <= i < frames.len() && #[trigger] reached(frames, i) ==> !frames[i].offers(),
    ensures
        service(addr, world, frames).world.peers == world.peers,
    decreases frames.len(),
{
    if frames.len() > 0 {
        let frame = frames[0];
        let rest = frames.drop_first();
        assert(reached(frames, 0));
        law_frame_and_peers(addr, world, frame);
        if !frame.closes() {
            assert forall|i: int| 0 <= i < rest.len() && #[trigger] reached(
                rest,
                i,
            ) implies !rest[i].offers() by {
                assert forall|j: int| 0 <= j < i + 1 implies !(#[trigger] frames[j]).closes() by {
                    if j > 0 {
                        assert(rest[j - 1] == frames[j]);
                    }
                }
                assert(reached(frames, i + 1));
            }
            law_no_offer_no_peer(addr, frame.world_after(addr, world), rest);
        } else {
            law_frame_ends_service(addr, world, frame);
        }
    }
}

/// No two clients share a peer connection.
pub open spec fn apart<P>(peers: Map<Address, P>) -> bool {
    forall|a: Address, b: Address|
        #![trigger peers.dom().contains(a), peers.dom().contains(b)]
        peers.dom().contains(a) && peers.dom().contains(b) && a != b ==> peers[a] != peers[b]
}

/// The peer connection is none of those that are kept.
pub open spec fn fresh<P>(peers: Map<Address, P>, peer: P) -> bool {
    forall|a: Address| #[trigger] peers.dom().contains(a) ==> peers[a] != peer
}

/// To deal with an offer does not make two clients share a peer connection, if
/// one that is created is none of those that are kept.
pub proof fn law_offer_keeps_peers_apart<V, P>(
    addr: Address,
    world: World<V, P>,
    frame: Frame<P>,
)
    requires
        apart(world.peers),
        fresh(world.peers, frame.created),
    ensures
        apart(frame.world_after(addr, world).peers),
{
    law_frame_and_peers(addr, world, frame);
    let after = frame.world_after(addr, world).peers;
    assert forall|a: Address, b: Address|
        #![trigger after.dom().contains(a), after.dom().contains(b)]
        after.dom().contains(a) && after.dom().contains(b) && a != b implies after[a]
        != after[b] by {
        if after != world.peers {
            assert(a != addr ==> world.peers.dom().contains(a));
            assert(b != addr ==> world.peers.dom().contains(b));
        }
    }
}

/// Nor does it over a whole stream, if each peer connection that is created is
/// none of those kept before and none of the others created.
pub proof fn law_service_keeps_peers_apart<V, P>(
    addr: Address,
    world: World<V, P>,
    frames: Seq<Frame<P>>,
)
    requires
        apart(world.peers),
        forall|i: int|
            0 <= i < frames.len() ==> fresh(world.peers, (#[trigger] frames[i]).created),
        forall|i: int, j: int|
            0 <= i < frames.len() && 0 <= j < frames.len() && i != j ==> (
            #[trigger] frames[i]).created != (#[trigger] frames[j]).created,
    ensures
        apart(service(addr, world, frames).world.peers),
    decreases frames.len(),
{
    if frames.len() > 0 {
        let next = frames[0].world_after(addr, world);
        let rest = frames.drop_first();
        law_offer_keeps_peers_apart(addr, world, frames[0]);
        law_frame_and_peers(addr, world, frames[0]);
        assert forall|i: int| 0 <= i < rest.len() implies fresh(
            next.peers,
            (#[trigger] rest[i]).created,
        ) by {
            assert(rest[i] == frames[i + 1]);
            assert(frames[0].created != frames[i + 1].created);
            assert(fresh(world.peers, frames[i + 1].created));
            assert forall|a: Address| #[trigger] next.peers.dom().contains(a) implies next.peers[a]
                != rest[i].created by {
                assert(a != addr ==> world.peers.dom().contains(a) || next.peers == world.peers);
                if next.peers == world.peers {
                    assert(world.peers.dom().contains(a));
                }
            }
        }
        assert forall|i: int, j: int|
            0 <= i < rest.len() && 0 <= j < rest.len() && i != j implies (
        #[trigger] rest[i]).created != (#[trigger] rest[j]).created by {
            assert(rest[i] == frames[i + 1] && rest[j] == frames[j + 1]);
        }
        law_service_keeps_peers_apart(addr, next, rest);
    }
}

/// Which peer connection: the one created for this client, in dealing with the
/// frame at this place.
pub struct Origin {
    pub client: Address,
    pub place: int,
}

/// What arrives from a client, each peer connection known by its origin alone.
pub open spec fn by_origin<P>(addr: Address, frames: Seq<Frame<P>>) -> Seq<Frame<Origin>> {
    frames.map(
        |i: int, frame: Frame<P>|
            Frame {
                incoming: frame.incoming,
                created: Origin { client: addr, place: i },
                outcomes: frame.outcomes,
                taken: frame.taken,
            },
    )
}

/// A client that is served for a while, and who is connected then.
pub struct Turn<V, P> {
    pub addr: Address,
    pub clients: Map<Address, V>,
    pub frames: Seq<Frame<P>>,
}

/// The peer connections, each known by its origin, after some clients have been
/// served in turn. At first there are none.
pub open spec fn origins<V, P>(turns: Seq<Turn<V, P>>) -> Map<Address, Origin>
    decreases turns.len(),
{
    if turns.len() == 0 {
        Map::empty()
    } else {
        let turn = turns.last();
        service(
            turn.addr,
            World { clients: turn.clients, peers: origins(turns.drop_last()) },
            by_origin(turn.addr, turn.frames),
        ).world.peers
    }
}

/// However many clients are served, in whatever turns, the peer connection that
/// is kept for a client is one that was created for that client. So no two
/// clients share one.
pub proof fn law_each_has_its_own_peer<V, P>(turns: Seq<Turn<V, P>>)
    ensures
        forall|a: Address| #[trigger]
            origins(turns).dom().contains(a) ==> origins(turns)[a].client == a,
        apart(origins(turns)),
    decreases turns.len(),
{
    if turns.len() > 0 {
        let turn = turns.last();
        law_each_has_its_own_peer(turns.drop_last());
        law_peers_only_grow(
            turn.addr,
            World { clients: turn.clients, peers: origins(turns.drop_last()) },
            by_origin(turn.addr, turn.frames),
        );
        assert forall|a: Address| #[trigger] origins(turns).dom().contains(a) implies origins(
            turns,
        )[a].client == a by {
            if a != turn.addr {
                assert(origins(turns.drop_last()).dom().contains(a));
            }
        }
    }
}

} // verus!
