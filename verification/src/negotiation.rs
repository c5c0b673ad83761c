//! How a peer connection is agreed on: offers, answers and candidates.

use vstd::prelude::*;
use webrtc::ice_transport::ice_candidate::RTCIceCandidate;
use webrtc::peer_connection::sdp::session_description::RTCSessionDescription;

use crate::chat::{Outgoing, OutgoingView};
use crate::json::Json;
use crate::message::{
    AnswerSignalMessage, ContentView, IceCandidateSignalMessage, IceCandidateView,
    OfferSignalMessage,
};
use crate::registry::{Address, Registry};
use crate::settings::{
    create_peer_connection, video_track, PeerSettings, PeerSettingsView, TrackSettings,
    TrackSettingsView,
};
use crate::text::ScalarView;

verus! {

/// A session description that has been parsed.
#[verifier::external_type_specification]
#[verifier::external_body]
pub struct ExSessionDescription(RTCSessionDescription);

/// The error with which a description or a candidate is refused.
#[verifier::external_type_specification]
#[verifier::external_body]
pub struct ExWebrtcError(webrtc::Error);

/// What `RTCSessionDescription::offer` makes of a text; `None` where it refuses the text.
pub uninterp spec fn offer_description(sdp: Seq<char>) -> Option<RTCSessionDescription>;

/// What `RTCSessionDescription::answer` makes of a text; `None` where it refuses the text.
pub uninterp spec fn answer_description(sdp: Seq<char>) -> Option<RTCSessionDescription>;

/// The value of a result, if it is not an error.
pub open spec fn accepted<T, E>(result: Result<T, E>) -> Option<T> {
    match result {
        Ok(value) => Some(value),
        Err(_) => None,
    }
}

/// `RTCSessionDescription::offer`: what it returns, and whether it fails,
/// depends on the text alone.
#[verifier::external_body]
fn describe_offer(sdp: String) -> (description: Result<RTCSessionDescription, webrtc::Error>)
    ensures
        accepted(description) == offer_description(sdp@),
{
    RTCSessionDescription::offer(sdp)
}

/// `RTCSessionDescription::answer`: what it returns, and whether it fails,
/// depends on the text alone.
#[verifier::external_body]
fn describe_answer(sdp: String) -> (description: Result<RTCSessionDescription, webrtc::Error>)
    ensures
        accepted(description) == answer_description(sdp@),
{
    RTCSessionDescription::answer(sdp)
}

// ---------------------------------------------------------------------------
// Offers from clients
// ---------------------------------------------------------------------------

/// How far an offer has been dealt with: the step that is under way.
#[derive(Clone, Copy, Debug, PartialEq, Eq, Structural)]
pub enum Stage {
    CreatingPeer,
    AddingTrack,
    WatchingCandidates,
    StoringPeer,
    ForwardingTrack,
    SettingRemote,
    CreatingAnswer,
    SettingLocal,
    ReadingLocal,
    /// The answer has been handed out.
    Finished,
    /// A step has failed.
    Aborted,
}

/// An offer that is being dealt with.
#[derive(Debug)]
pub struct Negotiation {
    /// The client that made the offer.
    pub addr: Address,
    /// The description that it offered.
    pub sdp: String,
    pub stage: Stage,
}

/// An offer that is being dealt with, seen as a mathematical value.
pub struct NegotiationView {
    pub addr: Address,
    pub sdp: Seq<char>,
    pub stage: Stage,
}

impl View for Negotiation {
    type V = NegotiationView;

    open spec fn view(&self) -> NegotiationView {
        NegotiationView { addr: self.addr, sdp: self.sdp@, stage: self.stage }
    }
}

/// What came of a step.
#[derive(Debug)]
pub enum Outcome {
    Done,
    /// The step is done and has created this session description.
    Created(RTCSessionDescription),
    /// The step is done and came upon this session description.
    Described(String),
    Failed,
}

/// What came of a step, seen as a mathematical value.
pub enum OutcomeView {
    Done,
    Created(RTCSessionDescription),
    Described(Seq<char>),
    Failed,
}

impl View for Outcome {
    type V = OutcomeView;

    open spec fn view(&self) -> OutcomeView {
        match self {
            Outcome::Done => OutcomeView::Done,
            Outcome::Created(description) => OutcomeView::Created(*description),
            Outcome::Described(sdp) => OutcomeView::Described(sdp@),
            Outcome::Failed => OutcomeView::Failed,
        }
    }
}

/// The next step of dealing with an offer.
#[derive(Debug)]
pub enum OfferAction {
    /// Create a peer connection.
    CreatePeer(PeerSettings),
    /// Add a track to the peer connection.
    AddTrack(TrackSettings),
    /// From now on, send the candidates of the peer connection to the client.
    WatchCandidates(Address),
    /// Keep the peer connection for the client.
    StorePeer(Address),
    /// From now on, send back on the added track what arrives from the peer.
    ForwardTrack,
    /// Set the remote description.
    SetRemote(RTCSessionDescription),
    /// Create an answer.
    CreateAnswer,
    /// Set the answer that was created as the local description.
    SetLocal(RTCSessionDescription),
    /// Read the local description.
    ReadLocal,
    /// Send the answer; this was the last step.
    Send(Outgoing),
    /// Give up on the connection.
    Abort,
    /// There is nothing left to do.
    Nothing,
}

/// The next step, seen as a mathematical value.
pub enum OfferActionView {
    CreatePeer(PeerSettingsView),
    AddTrack(TrackSettingsView),
    WatchCandidates(Address),
    StorePeer(Address),
    ForwardTrack,
    SetRemote(RTCSessionDescription),
    CreateAnswer,
    SetLocal(RTCSessionDescription),
    ReadLocal,
    Send(OutgoingView),
    Abort,
    Nothing,
}

impl View for OfferAction {
    type V = OfferActionView;

    open spec fn view(&self) -> OfferActionView {
        match self {
            OfferAction::CreatePeer(settings) => OfferActionView::CreatePeer(settings@),
            OfferAction::AddTrack(track) => OfferActionView::AddTrack(track@),
            OfferAction::WatchCandidates(addr) => OfferActionView::WatchCandidates(*addr),
            OfferAction::StorePeer(addr) => OfferActionView::StorePeer(*addr),
            OfferAction::ForwardTrack => OfferActionView::ForwardTrack,
            OfferAction::SetRemote(description) => OfferActionView::SetRemote(*description),
            OfferAction::CreateAnswer => OfferActionView::CreateAnswer,
            OfferAction::SetLocal(answer) => OfferActionView::SetLocal(*answer),
            OfferAction::ReadLocal => OfferActionView::ReadLocal,
            OfferAction::Send(outgoing) => OfferActionView::Send(outgoing@),
            OfferAction::Abort => OfferActionView::Abort,
            OfferAction::Nothing => OfferActionView::Nothing,
        }
    }
}

impl NegotiationView {
    pub open spec fn at(self, stage: Stage) -> NegotiationView {
        NegotiationView { stage, ..self }
    }

    /// What is done with the offered description, once parsed: it is set as the
    /// remote one. `None` stands for a description that could not be parsed.
    pub open spec fn remote(self, described: Option<RTCSessionDescription>) -> (
        NegotiationView,
        OfferActionView,
    ) {
        match described {
            Some(description) => (
                self.at(Stage::SettingRemote),
                OfferActionView::SetRemote(description),
            ),
            None => self.aborted(),
        }
    }

    pub open spec fn aborted(self) -> (NegotiationView, OfferActionView) {
        (self.at(Stage::Aborted), OfferActionView::Abort)
    }

    /// The text that answers the client.
    pub open spec fn answer(self, sdp: Seq<char>) -> OutgoingView {
        OutgoingView {
            to: self.addr,
            text: crate::message::content_text(ContentView { msg_type: "Answer"@, content: sdp }),
        }
    }

    /// The step that follows on a step and what came of it. `described` is what
    /// the offered text was parsed to, and `connected` whether the client is there.
    pub open spec fn next(
        self,
        outcome: OutcomeView,
        described: Option<RTCSessionDescription>,
        connected: bool,
    ) -> (NegotiationView, OfferActionView) {
        if self.stage == Stage::Finished || self.stage == Stage::Aborted {
            (self, OfferActionView::Nothing)
        } else if outcome is Failed {
            self.aborted()
        } else {
            match self.stage {
                Stage::CreatingPeer => (
                    self.at(Stage::AddingTrack),
                    OfferActionView::AddTrack(crate::settings::video_settings()),
                ),
                Stage::AddingTrack => if connected {
                    (
                        self.at(Stage::WatchingCandidates),
                        OfferActionView::WatchCandidates(self.addr),
                    )
                } else {
                    self.aborted()
                },
                Stage::WatchingCandidates => (
                    self.at(Stage::StoringPeer),
                    OfferActionView::StorePeer(self.addr),
                ),
                Stage::StoringPeer => (
                    self.at(Stage::ForwardingTrack),
                    OfferActionView::ForwardTrack,
                ),
                Stage::ForwardingTrack => self.remote(described),
                Stage::SettingRemote => (
                    self.at(Stage::CreatingAnswer),
                    OfferActionView::CreateAnswer,
                ),
                Stage::CreatingAnswer => match outcome {
                    OutcomeView::Created(answer) => (
                        self.at(Stage::SettingLocal),
                        OfferActionView::SetLocal(answer),
                    ),
                    _ => self.aborted(),
                },
                Stage::SettingLocal => (self.at(Stage::ReadingLocal), OfferActionView::ReadLocal),
                _ => match outcome {
                    OutcomeView::Described(sdp) => if connected {
                        (self.at(Stage::Finished), OfferActionView::Send(self.answer(sdp)))
                    } else {
                        self.aborted()
                    },
                    _ => self.aborted(),
                },
            }
        }
    }

    /// The first step of dealing with an offer. `known` is whether the client
    /// has a peer connection already.
    pub open spec fn first(
        self,
        known: bool,
        described: Option<RTCSessionDescription>,
    ) -> (NegotiationView, OfferActionView) {
        if known {
            self.remote(described)
        } else {
            (
                self.at(Stage::CreatingPeer),
                OfferActionView::CreatePeer(crate::settings::peer_settings()),
            )
        }
    }
}

/// The state and the step of an answer to an offer, seen as mathematical values.
pub open spec fn step_view(step: (Negotiation, OfferAction)) -> (NegotiationView, OfferActionView) {
    (step.0@, step.1@)
}

impl Negotiation {
    /// Goes on to another stage.
    fn to_stage(self, stage: Stage) -> (negotiation: Negotiation)
        ensures
            negotiation@ == self@.at(stage),
    {
        Negotiation { addr: self.addr, sdp: self.sdp, stage }
    }

    /// Goes on with the offered description, once parsed; `None` stands for one
    /// that could not be parsed.
    pub fn set_remote(self, described: Option<RTCSessionDescription>) -> (step: (
        Negotiation,
        OfferAction,
    ))
        ensures
            step_view(step) == self@.remote(described),
            step.0.addr == self.addr,
            step.0.sdp@ == self.sdp@,
            match described {
                Some(description) => step.0.stage is SettingRemote && step.1
                    == OfferAction::SetRemote(description),
                None => step.0.stage is Aborted && step.1 is Abort,
            },
    {
        match described {
            Some(description) => (
                self.to_stage(Stage::SettingRemote),
                OfferAction::SetRemote(description),
            ),
            None => (self.to_stage(Stage::Aborted), OfferAction::Abort),
        }
    }

    /// Parses the offered description and goes on with it.
    fn describe_remote(self) -> (step: (Negotiation, OfferAction))
        ensures
            step_view(step) == self@.remote(offer_description(self@.sdp)),
    {
        match describe_offer(self.sdp.clone()) {
            Ok(description) => self.set_remote(Some(description)),
            Err(_) => self.set_remote(None),
        }
    }

    /// Sends the local description to the client, if it is there.
    fn send_answer(self, sdp: String, connected: bool) -> (step: (Negotiation, OfferAction))
        ensures
            step_view(step) == if connected {
                (self@.at(Stage::Finished), OfferActionView::Send(self@.answer(sdp@)))
            } else {
                self@.aborted()
            },
    {
        if connected {
            let answer = AnswerSignalMessage { msg_type: "Answer".to_owned(), content: sdp };
            let to = self.addr;
            (
                self.to_stage(Stage::Finished),
                OfferAction::Send(Outgoing { to, text: answer.to_text() }),
            )
        } else {
            (self.to_stage(Stage::Aborted), OfferAction::Abort)
        }
    }

    /// Takes what came of the step under way, and goes on to the next.
    pub fn advance<V>(self, outcome: Outcome, web_socket_clients: &Registry<V>) -> (step: (
        Negotiation,
        OfferAction,
    ))
        ensures
            step_view(step) == self@.next(
                outcome@,
                offer_description(self@.sdp),
                web_socket_clients@.dom().contains(self@.addr),
            ),
            step.0.addr == self.addr,
            step.0.sdp@ == self.sdp@,
            self.stage is ReadingLocal && web_socket_clients@.dom().contains(self.addr) ==> (
            outcome matches Outcome::Described(sdp) ==> {
                &&& step.0.stage is Finished
                &&& step.1 matches OfferAction::Send(outgoing)
                &&& outgoing.to == self.addr
                &&& outgoing.text@ == crate::text::object_text(
                    seq![
                        ("msg_type"@, ScalarView::Text("Answer"@)),
                        ("content"@, ScalarView::Text(sdp@)),
                    ],
                )
            }),
            self.stage is CreatingAnswer ==> (outcome matches Outcome::Created(answer)
                ==> step.0.stage is SettingLocal && step.1 == OfferAction::SetLocal(answer)),
            self.stage is ForwardingTrack && !(outcome is Failed) ==> match offer_description(
                self.sdp@,
            ) {
                Some(description) => step.0.stage is SettingRemote && step.1
                    == OfferAction::SetRemote(description),
                None => step.0.stage is Aborted && step.1 is Abort,
            },
    {
        let stage = self.stage;
        if stage == Stage::Finished || stage == Stage::Aborted {
            return (self, OfferAction::Nothing);
        }
        if let Outcome::Failed = outcome {
            return (self.to_stage(Stage::Aborted), OfferAction::Abort);
        }
        let connected = web_socket_clients.contains(&self.addr);
        let addr = self.addr;
        match stage {
            Stage::CreatingPeer => (
                self.to_stage(Stage::AddingTrack),
                OfferAction::AddTrack(video_track()),
            ),
            Stage::AddingTrack => {
                if connected {
                    (
                        self.to_stage(Stage::WatchingCandidates),
                        OfferAction::WatchCandidates(addr),
                    )
                } else {
                    (self.to_stage(Stage::Aborted), OfferAction::Abort)
                }
            },
            Stage::WatchingCandidates => (
                self.to_stage(Stage::StoringPeer),
                OfferAction::StorePeer(addr),
            ),
            Stage::StoringPeer => (
                self.to_stage(Stage::ForwardingTrack),
                OfferAction::ForwardTrack,
            ),
            Stage::ForwardingTrack => self.describe_remote(),
            Stage::SettingRemote => (
                self.to_stage(Stage::CreatingAnswer),
                OfferAction::CreateAnswer,
            ),
            Stage::CreatingAnswer => match outcome {
                Outcome::Created(answer) => (
                    self.to_stage(Stage::SettingLocal),
                    OfferAction::SetLocal(answer),
                ),
                _ => (self.to_stage(Stage::Aborted), OfferAction::Abort),
            },
            Stage::SettingLocal => (self.to_stage(Stage::ReadingLocal), OfferAction::ReadLocal),
            _ => match outcome {
                Outcome::Described(sdp) => self.send_answer(sdp, connected),
                _ => (self.to_stage(Stage::Aborted), OfferAction::Abort),
            },
        }
    }
}

/// The offer that a client made, before anything is done about it.
pub open spec fn offer_from(addr: Address, sdp: Seq<char>) -> NegotiationView {
    NegotiationView { addr, sdp, stage: Stage::CreatingPeer }
}

/// Begins to deal with an offer. A client without a peer connection gets one
/// first; the one that a client has already is used again. A value that is no
/// offer is not dealt with.
pub fn process_offer_message<P>(
    json: &Json,
    webrtc_clients: &Registry<P>,
    addr: &Address,
) -> (step: Option<(Negotiation, OfferAction)>)
    ensures
        match crate::message::content_of(json@) {
            Some(offer) => step matches Some(step) && step_view(step) == offer_from(
                *addr,
                offer.content,
            ).first(
                webrtc_clients@.dom().contains(*addr),
                offer_description(offer.content),
            ),
            None => step is None,
        },
        step matches Some((negotiation, action)) ==> {
            &&& negotiation.addr == *addr
            &&& crate::message::content_of(json@) matches Some(offer) && offer.content
                == negotiation.sdp@
            &&& if webrtc_clients@.dom().contains(*addr) {
                match offer_description(negotiation.sdp@) {
                    Some(description) => negotiation.stage is SettingRemote && action
                        == OfferAction::SetRemote(description),
                    None => negotiation.stage is Aborted && action is Abort,
                }
            } else {
                negotiation.stage is CreatingPeer && action is CreatePeer
            }
        },
{
    match OfferSignalMessage::from_json(json) {
        Some(offer_message) => {
            let negotiation = Negotiation {
                addr: *addr,
                sdp: offer_message.content,
                stage: Stage::CreatingPeer,
            };
            if webrtc_clients.contains(addr) {
                Some(negotiation.describe_remote())
            } else {
                Some((negotiation, OfferAction::CreatePeer(create_peer_connection())))
            }
        },
        None => None,
    }
}

// ---------------------------------------------------------------------------
// Answers from clients
// ---------------------------------------------------------------------------

/// What is done about an answer.
#[derive(Debug)]
pub enum AnswerAction {
    /// Nothing.
    Ignore,
    /// Set the remote description of the client's peer connection.
    SetRemote(RTCSessionDescription),
    /// Give up on the connection.
    Abort,
}

/// What is done about an answer that has been parsed; `None` stands for one
/// that could not be parsed.
pub fn set_answer(described: Option<RTCSessionDescription>) -> (action: AnswerAction)
    ensures
        action == match described {
            Some(description) => AnswerAction::SetRemote(description),
            None => AnswerAction::Abort,
        },
{
    match described {
        Some(description) => AnswerAction::SetRemote(description),
        None => AnswerAction::Abort,
    }
}

/// Decides about an answer. It is set as the remote description of the peer
/// connection of the client that sent it. A client without a peer connection is
/// ignored, and so is a value that is no answer.
pub fn process_answer_message<P>(
    json: &Json,
    webrtc_clients: &Registry<P>,
    addr: &Address,
) -> (action: AnswerAction)
    ensures
        action == match crate::message::content_of(json@) {
            Some(answer) => if webrtc_clients@.dom().contains(*addr) {
                match answer_description(answer.content) {
                    Some(description) => AnswerAction::SetRemote(description),
                    None => AnswerAction::Abort,
                }
            } else {
                AnswerAction::Ignore
            },
            None => AnswerAction::Ignore,
        },
{
    match AnswerSignalMessage::from_json(json) {
        Some(answer_message) => {
            if webrtc_clients.contains(addr) {
                match describe_answer(answer_message.content) {
                    Ok(description) => set_answer(Some(description)),
                    Err(_) => set_answer(None),
                }
            } else {
                AnswerAction::Ignore
            }
        },
        None => AnswerAction::Ignore,
    }
}

// ---------------------------------------------------------------------------
// Offers to clients
// ---------------------------------------------------------------------------

/// How far an offer to a client has got: the step that is under way.
#[derive(Clone, Copy, Debug, PartialEq, Eq, Structural)]
pub enum OfferStage {
    CreatingOffer,
    SettingLocal,
    ReadingLocal,
    /// The text of the offer has been handed out.
    Finished,
    /// A step has failed.
    Aborted,
}

/// The next step of an offer to a client.
#[derive(Debug)]
pub enum OwnOfferAction {
    /// Create an offer.
    CreateOffer,
    /// Set the offer that was created as the local description.
    SetLocal(RTCSessionDescription),
    /// Read the local description.
    ReadLocal,
    /// The text of the offer.
    Offer(String),
    /// Give up on the connection.
    Abort,
    /// There is nothing left to do.
    Nothing,
}

/// The next step of an offer to a client, seen as a mathematical value.
pub enum OwnOfferActionView {
    CreateOffer,
    SetLocal(RTCSessionDescription),
    ReadLocal,
    Offer(Seq<char>),
    Abort,
    Nothing,
}

impl View for OwnOfferAction {
    type V = OwnOfferActionView;

    open spec fn view(&self) -> OwnOfferActionView {
        match self {
            OwnOfferAction::CreateOffer => OwnOfferActionView::CreateOffer,
            OwnOfferAction::SetLocal(offer) => OwnOfferActionView::SetLocal(*offer),
            OwnOfferAction::ReadLocal => OwnOfferActionView::ReadLocal,
            OwnOfferAction::Offer(text) => OwnOfferActionView::Offer(text@),
            OwnOfferAction::Abort => OwnOfferActionView::Abort,
            OwnOfferAction::Nothing => OwnOfferActionView::Nothing,
        }
    }
}

impl OfferStage {
    /// The step that follows on a step and what came of it.
    pub open spec fn next(self, outcome: OutcomeView) -> (OfferStage, OwnOfferActionView) {
        if self == OfferStage::Finished || self == OfferStage::Aborted {
            (self, OwnOfferActionView::Nothing)
        } else if outcome is Failed {
            (OfferStage::Aborted, OwnOfferActionView::Abort)
        } else {
            match self {
                OfferStage::CreatingOffer => match outcome {
                    OutcomeView::Created(offer) => (
                        OfferStage::SettingLocal,
                        OwnOfferActionView::SetLocal(offer),
                    ),
                    _ => (OfferStage::Aborted, OwnOfferActionView::Abort),
                },
                OfferStage::SettingLocal => (OfferStage::ReadingLocal, OwnOfferActionView::ReadLocal),
                _ => match outcome {
                    OutcomeView::Described(sdp) => (
                        OfferStage::Finished,
                        OwnOfferActionView::Offer(
                            crate::message::content_text(
                                ContentView { msg_type: "Offer"@, content: sdp },
                            ),
                        ),
                    ),
                    _ => (OfferStage::Aborted, OwnOfferActionView::Abort),
                },
            }
        }
    }

    /// Takes what came of the step under way, and goes on to the next.
    pub fn advance(self, outcome: Outcome) -> (step: (OfferStage, OwnOfferAction))
        ensures
            (step.0, step.1@) == self.next(outcome@),
            self is CreatingOffer ==> (outcome matches Outcome::Created(offer) ==> step.0
                is SettingLocal && step.1 == OwnOfferAction::SetLocal(offer)),
            self is ReadingLocal ==> (outcome matches Outcome::Described(sdp) ==> {
                &&& step.0 is Finished
                &&& step.1 matches OwnOfferAction::Offer(text)
                &&& text@ == crate::text::object_text(
                    seq![
                        ("msg_type"@, ScalarView::Text("Offer"@)),
                        ("content"@, ScalarView::Text(sdp@)),
                    ],
                )
            }),
    {
        if self == OfferStage::Finished || self == OfferStage::Aborted {
            return (self, OwnOfferAction::Nothing);
        }
        if let Outcome::Failed = outcome {
            return (OfferStage::Aborted, OwnOfferAction::Abort);
        }
        match self {
            OfferStage::CreatingOffer => match outcome {
                Outcome::Created(offer) => (
                    OfferStage::SettingLocal,
                    OwnOfferAction::SetLocal(offer),
                ),
                _ => (OfferStage::Aborted, OwnOfferAction::Abort),
            },
            OfferStage::SettingLocal => (OfferStage::ReadingLocal, OwnOfferAction::ReadLocal),
            _ => match outcome {
                Outcome::Described(sdp) => {
                    let offer = OfferSignalMessage { msg_type: "Offer".to_owned(), content: sdp };
                    (OfferStage::Finished, OwnOfferAction::Offer(offer.to_text()))
                },
                _ => (OfferStage::Aborted, OwnOfferAction::Abort),
            },
        }
    }
}

/// Begins an offer to a client.
pub fn send_offer() -> (step: (OfferStage, OwnOfferAction))
    ensures
        (step.0, step.1@) == (OfferStage::CreatingOffer, OwnOfferActionView::CreateOffer),
{
    (OfferStage::CreatingOffer, OwnOfferAction::CreateOffer)
}

// ---------------------------------------------------------------------------
// Candidates
// ---------------------------------------------------------------------------

/// A candidate as peers tell it to each other.
#[derive(Debug)]
pub struct CandidateInit {
    pub candidate: String,
    pub sdp_mid: Option<String>,
    pub sdp_mline_index: Option<u16>,
    pub username_fragment: Option<String>,
}

/// A candidate as peers tell it to each other, seen as a mathematical value.
pub struct CandidateInitView {
    pub candidate: Seq<char>,
    pub sdp_mid: Option<Seq<char>>,
    pub sdp_mline_index: Option<u16>,
    pub username_fragment: Option<Seq<char>>,
}

impl View for CandidateInit {
    type V = CandidateInitView;

    open spec fn view(&self) -> CandidateInitView {
        CandidateInitView {
            candidate: self.candidate@,
            sdp_mid: crate::message::text_view(self.sdp_mid),
            sdp_mline_index: self.sdp_mline_index,
            username_fragment: crate::message::text_view(self.username_fragment),
        }
    }
}

/// A candidate that the server's own side has found.
#[derive(Debug)]
pub struct LocalCandidate {
    pub stats_id: String,
    pub foundation: String,
    pub priority: u32,
    pub address: String,
    /// `udp` or `tcp`.
    pub protocol: String,
    pub port: u16,
    /// `host`, `srflx`, `prflx` or `relay`.
    pub typ: String,
    pub component: u16,
    pub related_address: String,
    pub related_port: u16,
    pub tcp_type: String,
}

/// A candidate that was found, seen as a mathematical value.
pub struct LocalCandidateView {
    pub stats_id: Seq<char>,
    pub foundation: Seq<char>,
    pub priority: u32,
    pub address: Seq<char>,
    pub protocol: Seq<char>,
    pub port: u16,
    pub typ: Seq<char>,
    pub component: u16,
    pub related_address: Seq<char>,
    pub related_port: u16,
    pub tcp_type: Seq<char>,
}

impl View for LocalCandidate {
    type V = LocalCandidateView;

    open spec fn view(&self) -> LocalCandidateView {
        LocalCandidateView {
            stats_id: self.stats_id@,
            foundation: self.foundation@,
            priority: self.priority,
            address: self.address@,
            protocol: self.protocol@,
            port: self.port,
            typ: self.typ@,
            component: self.component,
            related_address: self.related_address@,
            related_port: self.related_port,
            tcp_type: self.tcp_type@,
        }
    }
}

impl LocalCandidateView {
    /// The candidate has a priority, or its component leaves room to work one out.
    pub open spec fn rankable(self) -> bool {
        self.priority != 0 || self.component <= 256
    }
}

/// What `RTCIceCandidate::to_json` makes of a candidate; `None` where it fails.
pub uninterp spec fn candidate_json(candidate: LocalCandidateView) -> Option<CandidateInitView>;

/// The candidate in a result, if it is not an error, seen as a mathematical value.
pub open spec fn accepted_candidate<E>(result: Result<CandidateInit, E>) -> Option<
    CandidateInitView,
> {
    match result {
        Ok(init) => Some(init@),
        Err(_) => None,
    }
}

/// The fields that are the same whatever the candidate.
pub open spec fn first_line(init: Option<CandidateInitView>) -> bool {
    init matches Some(init) ==> {
        &&& init.sdp_mid == Some(Seq::<char>::empty())
        &&& init.sdp_mline_index == Some(0u16)
        &&& init.username_fragment is None
    }
}

/// `RTCIceCandidate::to_json`: what it returns, and whether it fails, depends on
/// the candidate alone; the media line it names is always the first, by its
/// number, and there is no user name. Where the candidate has no priority and a
/// component above 256, working out the priority overflows.
#[verifier::external_body]
fn describe_candidate(c: LocalCandidate) -> (init: Result<CandidateInit, webrtc::Error>)
    requires
        c@.rankable(),
    ensures
        accepted_candidate(init) == candidate_json(c@),
        first_line(accepted_candidate(init)),
{
    let candidate = RTCIceCandidate {
        stats_id: c.stats_id, foundation: c.foundation, priority: c.priority, address: c.address,
        protocol: c.protocol.as_str().into(), port: c.port, typ: c.typ.as_str().into(),
        component: c.component, related_address: c.related_address,
        related_port: c.related_port, tcp_type: c.tcp_type,
    };
    match candidate.to_json() {
        Ok(init) => Ok(CandidateInit {
            candidate: init.candidate, sdp_mid: init.sdp_mid,
            sdp_mline_index: init.sdp_mline_index, username_fragment: init.username_fragment,
        }),
        Err(error) => Err(error),
    }
}

/// The message that tells a client of a candidate.
pub open spec fn notice_of(init: CandidateInitView) -> IceCandidateView {
    IceCandidateView {
        msg_type: "IceCandidate"@,
        content: init.candidate,
        sdp_mid: init.sdp_mid,
        sdp_mline_index: init.sdp_mline_index,
        username_fragment: init.username_fragment,
    }
}

/// The candidate that a message tells of.
pub open spec fn told_by(message: IceCandidateView) -> CandidateInitView {
    CandidateInitView {
        candidate: message.content,
        sdp_mid: message.sdp_mid,
        sdp_mline_index: message.sdp_mline_index,
        username_fragment: message.username_fragment,
    }
}

/// The text that tells a client of a candidate.
pub fn candidate_notice(init: CandidateInit) -> (text: String)
    ensures
        text@ == crate::message::candidate_text(notice_of(init@)),
        text@ == crate::text::object_text(
            seq![
                ("msg_type"@, ScalarView::Text("IceCandidate"@)),
                ("content"@, ScalarView::Text(init@.candidate)),
                (
                    "sdp_mid"@,
                    match init@.sdp_mid {
                        Some(s) => ScalarView::Text(s),
                        None => ScalarView::Null,
                    },
                ),
                (
                    "sdp_mline_index"@,
                    match init@.sdp_mline_index {
                        Some(n) => ScalarView::Number(n as u64),
                        None => ScalarView::Null,
                    },
                ),
                (
                    "username_fragment"@,
                    match init@.username_fragment {
                        Some(s) => ScalarView::Text(s),
                        None => ScalarView::Null,
                    },
                ),
            ],
        ),
{
    let message = IceCandidateSignalMessage {
        msg_type: "IceCandidate".to_owned(),
        content: init.candidate,
        sdp_mid: init.sdp_mid,
        sdp_mline_index: init.sdp_mline_index,
        username_fragment: init.username_fragment,
    };
    proof {
        assert(crate::message::candidate_fields(message@) =~= seq![
            ("msg_type"@, ScalarView::Text("IceCandidate"@)),
            ("content"@, ScalarView::Text(init@.candidate)),
            (
                "sdp_mid"@,
                match init@.sdp_mid {
                    Some(s) => ScalarView::Text(s),
                    None => ScalarView::Null,
                },
            ),
            (
                "sdp_mline_index"@,
                match init@.sdp_mline_index {
                    Some(n) => ScalarView::Number(n as u64),
                    None => ScalarView::Null,
                },
            ),
            (
                "username_fragment"@,
                match init@.username_fragment {
                    Some(s) => ScalarView::Text(s),
                    None => ScalarView::Null,
                },
            ),
        ]);
    }
    message.to_text()
}

/// A found candidate, or the end of the candidates, seen as a mathematical value.
pub open spec fn found_view(candidate: Option<LocalCandidate>) -> Option<LocalCandidateView> {
    match candidate {
        Some(c) => Some(c@),
        None => None,
    }
}

/// The candidate can be told to a client.
pub open spec fn describable(found: Option<LocalCandidateView>) -> bool {
    found matches Some(c) && candidate_json(c) is Some
}

/// The text that tells a client of a candidate that can be told.
pub open spec fn found_text(found: Option<LocalCandidateView>) -> Seq<char> {
    crate::message::candidate_text(notice_of(candidate_json(found->0)->0))
}

/// The texts to send when a candidate has been found: one, if it can be told;
/// none otherwise, nor at the end of the candidates.
pub open spec fn told(found: Option<LocalCandidateView>) -> Seq<Seq<char>> {
    if describable(found) {
        seq![found_text(found)]
    } else {
        seq![]
    }
}

/// The texts that a result has sent.
pub open spec fn sent_by<E>(text: Result<Option<String>, E>) -> Seq<Seq<char>> {
    match text {
        Ok(Some(t)) => seq![t@],
        _ => seq![],
    }
}

/// A candidate that cannot be told to a client.
#[derive(Clone, Copy, Debug, PartialEq, Eq, Structural)]
pub struct CandidateRefused;

/// What to send to the client when a candidate has been found, or when, with
/// `None`, there are no more: then nothing is sent.
pub fn gather_and_send_candidates(candidate: Option<LocalCandidate>) -> (text: Result<
    Option<String>,
    CandidateRefused,
>)
    requires
        candidate matches Some(c) ==> c@.rankable(),
    ensures
        sent_by(text) == told(found_view(candidate)),
        text is Err <==> candidate is Some && !describable(found_view(candidate)),
        text matches Err(e) ==> e == CandidateRefused,
        match candidate {
            None => text matches Ok(None),
            Some(c) => match candidate_json(c@) {
                Some(init) => text matches Ok(Some(t)) && t@ == crate::text::object_text(
                    seq![
                        ("msg_type"@, ScalarView::Text("IceCandidate"@)),
                        ("content"@, ScalarView::Text(init.candidate)),
                        (
                            "sdp_mid"@,
                            match init.sdp_mid {
                                Some(s) => ScalarView::Text(s),
                                None => ScalarView::Null,
                            },
                        ),
                        (
                            "sdp_mline_index"@,
                            match init.sdp_mline_index {
                                Some(n) => ScalarView::Number(n as u64),
                                None => ScalarView::Null,
                            },
                        ),
                        (
                            "username_fragment"@,
                            match init.username_fragment {
                                Some(s) => ScalarView::Text(s),
                                None => ScalarView::Null,
                            },
                        ),
                    ],
                ),
                None => text is Err,
            },
        },
        candidate matches Some(c) ==> first_line(candidate_json(c@)),
{
    match candidate {
        None => Ok(None),
        Some(c) => match describe_candidate(c) {
            Ok(init) => {
                proof {
                    crate::promises::law_candidate_written(notice_of(init@));
                }
                Ok(Some(candidate_notice(init)))
            },
            Err(_) => Err(CandidateRefused),
        },
    }
}

/// The candidate to add to the client's peer connection. There is none for a
/// client without a peer connection, nor for a value that is no candidate.
pub fn process_icecandidate_message<P>(
    json: &Json,
    webrtc_clients: &Registry<P>,
    addr: &Address,
) -> (init: Option<CandidateInit>)
    ensures
        match crate::message::candidate_of(json@) {
            Some(message) => if webrtc_clients@.dom().contains(*addr) {
                init matches Some(init) && init@ == told_by(message) && init.candidate@
                    == message.content && crate::message::text_view(init.sdp_mid)
                    == message.sdp_mid && init.sdp_mline_index == message.sdp_mline_index
                    && crate::message::text_view(init.username_fragment)
                    == message.username_fragment
            } else {
                init is None
            },
            None => init is None,
        },
{
    match IceCandidateSignalMessage::from_json(json) {
        Some(icecandidate_message) => {
            if webrtc_clients.contains(addr) {
                Some(
                    CandidateInit {
                        candidate: icecandidate_message.content,
                        sdp_mid: icecandidate_message.sdp_mid,
                        sdp_mline_index: icecandidate_message.sdp_mline_index,
                        username_fragment: icecandidate_message.username_fragment,
                    },
                )
            } else {
                None
            }
        },
        None => None,
    }
}

} // verus!
