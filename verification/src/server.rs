//! Listening, taking in clients, sending what is queued for them, and telling
//! their messages apart.

use vstd::prelude::*;

use crate::json::{read_json, Json, JsonView};
use crate::message::{ContentView, IceCandidateView, MessageType, NewTrackView};
use crate::registry::{Address, Registry};

verus! {

// ---------------------------------------------------------------------------
// Listening
// ---------------------------------------------------------------------------

/// What the listener is waiting for.
#[derive(Clone, Copy, Debug, PartialEq, Eq, Structural)]
pub enum Listener {
    /// To be bound to its address.
    Binding,
    /// A client to connect.
    Accepting,
    Closed,
}

/// What became of what was waited for.
#[derive(Clone, Copy, Debug, PartialEq, Eq, Structural)]
pub enum ListenEvent {
    Done,
    Failed,
}

/// What the listener does next.
#[derive(Clone, Copy, Debug, PartialEq, Eq, Structural)]
pub enum ListenAction {
    /// Bind to the address.
    Bind(Address),
    /// Announce that the server runs, and accept a client.
    Announce,
    /// Serve the client that has connected, and accept another.
    Serve,
    /// Report that a client could not be accepted, and accept another.
    ReportClient,
    /// Report that the address could not be bound, and stop.
    ReportAddress,
    /// Stop.
    Stop,
}

/// The address at which the server listens: port 8080 on every interface.
pub open spec fn listen_address() -> Address {
    Address::V4 { ip: 0, port: 8080 }
}

impl Listener {
    /// The state and the action that follow.
    pub open spec fn next(self, event: ListenEvent) -> (Listener, ListenAction) {
        match (self, event) {
            (Listener::Binding, ListenEvent::Done) => (Listener::Accepting, ListenAction::Announce),
            (Listener::Binding, ListenEvent::Failed) => (
                Listener::Closed,
                ListenAction::ReportAddress,
            ),
            (Listener::Accepting, ListenEvent::Done) => (Listener::Accepting, ListenAction::Serve),
            (Listener::Accepting, ListenEvent::Failed) => (
                Listener::Accepting,
                ListenAction::ReportClient,
            ),
            (Listener::Closed, _) => (Listener::Closed, ListenAction::Stop),
        }
    }

    /// Takes what became of what was waited for.
    pub fn advance(self, event: ListenEvent) -> (step: (Listener, ListenAction))
        ensures
            step == self.next(event),
    {
        match self {
            Listener::Binding => match event {
                ListenEvent::Done => (Listener::Accepting, ListenAction::Announce),
                ListenEvent::Failed => (Listener::Closed, ListenAction::ReportAddress),
            },
            Listener::Accepting => match event {
                ListenEvent::Done => (Listener::Accepting, ListenAction::Serve),
                ListenEvent::Failed => (Listener::Accepting, ListenAction::ReportClient),
            },
            Listener::Closed => (Listener::Closed, ListenAction::Stop),
        }
    }
}

/// Begins to listen.
pub fn start_listening() -> (step: (Listener, ListenAction))
    ensures
        step == (Listener::Binding, ListenAction::Bind(listen_address())),
{
    (Listener::Binding, ListenAction::Bind(Address::V4 { ip: 0, port: 8080 }))
}

// ---------------------------------------------------------------------------
// Taking in clients
// ---------------------------------------------------------------------------

/// The clients after one has come: one with which the handshake failed, for
/// which there is no sender, is not taken in.
pub open spec fn taken_in<V>(
    clients: Map<Address, V>,
    addr: Address,
    sender: Option<V>,
) -> Map<Address, V> {
    match sender {
        Some(tx) => clients.insert(addr, tx),
        None => clients,
    }
}

/// Takes in a client by what its texts are sent with, in place of an earlier
/// client of the same address. `None` stands for a client with which the
/// handshake failed: it is not taken in. Says whether the client is to be served.
pub fn handle_connection<V>(
    web_socket_clients: &mut Registry<V>,
    addr: Address,
    sender: Option<V>,
) -> (serve: bool)
    ensures
        serve == sender is Some,
        final(web_socket_clients)@ == taken_in(old(web_socket_clients)@, addr, sender),
        sender matches Some(tx) ==> final(web_socket_clients)@ == old(web_socket_clients)@.insert(
            addr,
            tx,
        ),
        sender is None ==> final(web_socket_clients)@ == old(web_socket_clients)@,
{
    match sender {
        Some(tx) => {
            web_socket_clients.insert(addr, tx);
            true
        },
        None => false,
    }
}

// ---------------------------------------------------------------------------
// Sending what is queued for a client
// ---------------------------------------------------------------------------

/// What the sender of a client is waiting for.
#[derive(Clone, Copy, Debug, PartialEq, Eq, Structural)]
pub enum Sender {
    /// A message to be queued.
    Receiving,
    /// A message to be sent.
    Sending,
    Stopped,
}

/// What became of what was waited for.
#[derive(Debug)]
pub enum SenderEvent<M> {
    /// This message was queued.
    Received(M),
    /// The queue is empty, and nothing will be queued any more.
    Drained,
    /// The message was sent.
    Sent,
    /// The message could not be sent.
    Failed,
}

/// What the sender does next.
#[derive(Debug)]
pub enum SenderAction<M> {
    /// Take the next message from the queue.
    Receive,
    /// Send this message to the client.
    Send(M),
    /// Stop.
    Stop,
}

impl Sender {
    /// The state and the action that follow. A message is sent once it is
    /// received, and the next is received whether or not it could be sent. Only
    /// when the queue is drained does the sender stop.
    pub open spec fn next<M>(self, event: SenderEvent<M>) -> (Sender, SenderAction<M>) {
        if self == Sender::Stopped {
            (Sender::Stopped, SenderAction::Stop)
        } else {
            match event {
                SenderEvent::Received(message) => (Sender::Sending, SenderAction::Send(message)),
                SenderEvent::Drained => (Sender::Stopped, SenderAction::Stop),
                SenderEvent::Sent => (Sender::Receiving, SenderAction::Receive),
                SenderEvent::Failed => (Sender::Receiving, SenderAction::Receive),
            }
        }
    }

    /// Takes what became of what was waited for.
    pub fn advance<M>(self, event: SenderEvent<M>) -> (step: (Sender, SenderAction<M>))
        ensures
            step == self.next(event),
    {
        if self == Sender::Stopped {
            return (Sender::Stopped, SenderAction::Stop);
        }
        match event {
            SenderEvent::Received(message) => (Sender::Sending, SenderAction::Send(message)),
            SenderEvent::Drained => (Sender::Stopped, SenderAction::Stop),
            SenderEvent::Sent => (Sender::Receiving, SenderAction::Receive),
            SenderEvent::Failed => (Sender::Receiving, SenderAction::Receive),
        }
    }
}

/// Begins to send what is queued for a client.
pub fn create_sender<M>() -> (step: (Sender, SenderAction<M>))
    ensures
        step == (Sender::Receiving, SenderAction::<M>::Receive),
{
    (Sender::Receiving, SenderAction::Receive)
}

// ---------------------------------------------------------------------------
// Telling messages apart
// ---------------------------------------------------------------------------

/// What arrived from a client.
#[derive(Debug)]
pub enum Incoming {
    Text(String),
    /// The client closes the connection.
    Close,
    /// A frame of another kind.
    Other,
    /// The connection broke.
    Failed,
    /// The connection has ended.
    Ended,
}

/// What arrived from a client, seen as a mathematical value.
pub enum IncomingView {
    Text(Seq<char>),
    Close,
    Other,
    Failed,
    Ended,
}

impl View for Incoming {
    type V = IncomingView;

    open spec fn view(&self) -> IncomingView {
        match self {
            Incoming::Text(text) => IncomingView::Text(text@),
            Incoming::Close => IncomingView::Close,
            Incoming::Other => IncomingView::Other,
            Incoming::Failed => IncomingView::Failed,
            Incoming::Ended => IncomingView::Ended,
        }
    }
}

/// What is to be done about it.
#[derive(Debug)]
pub enum Dispatch {
    Chat(Json),
    Offer(Json),
    Answer(Json),
    IceCandidate(Json),
    NewVideoTrack,
    /// The message has a type, but not one that there is.
    UnknownType,
    Ignore,
    /// Report that the client closes the connection, and serve it no longer.
    ReportClose,
    /// Report that the connection broke, and serve the client no longer.
    ReportFailure,
    /// Serve the client no longer.
    Stop,
}

/// What is to be done, seen as a mathematical value.
pub enum DispatchView {
    Chat(JsonView),
    Offer(JsonView),
    Answer(JsonView),
    IceCandidate(JsonView),
    NewVideoTrack,
    UnknownType,
    Ignore,
    ReportClose,
    ReportFailure,
    Stop,
}

impl View for Dispatch {
    type V = DispatchView;

    open spec fn view(&self) -> DispatchView {
        match self {
            Dispatch::Chat(json) => DispatchView::Chat(json@),
            Dispatch::Offer(json) => DispatchView::Offer(json@),
            Dispatch::Answer(json) => DispatchView::Answer(json@),
            Dispatch::IceCandidate(json) => DispatchView::IceCandidate(json@),
            Dispatch::NewVideoTrack => DispatchView::NewVideoTrack,
            Dispatch::UnknownType => DispatchView::UnknownType,
            Dispatch::Ignore => DispatchView::Ignore,
            Dispatch::ReportClose => DispatchView::ReportClose,
            Dispatch::ReportFailure => DispatchView::ReportFailure,
            Dispatch::Stop => DispatchView::Stop,
        }
    }
}

/// What is to be done about a message of the given type.
pub open spec fn typed_dispatch(msg_type: MessageType, json: JsonView) -> DispatchView {
    match msg_type {
        MessageType::Chat => DispatchView::Chat(json),
        MessageType::Offer => DispatchView::Offer(json),
        MessageType::Answer => DispatchView::Answer(json),
        MessageType::IceCandidate => DispatchView::IceCandidate(json),
        MessageType::NewVideoTrack => DispatchView::NewVideoTrack,
    }
}

/// What is to be done about a JSON value: it goes by its member `msg_type`.
pub open spec fn json_dispatch(json: JsonView) -> DispatchView {
    match json.get("msg_type"@) {
        Some(value) => match crate::message::type_of(value) {
            Some(msg_type) => typed_dispatch(msg_type, json),
            None => DispatchView::UnknownType,
        },
        None => DispatchView::Ignore,
    }
}

/// What is to be done about what arrived. `parsed` is what its text was read as.
pub open spec fn dispatched(incoming: IncomingView, parsed: Option<JsonView>) -> DispatchView {
    match incoming {
        IncomingView::Text(_) => match parsed {
            Some(json) => json_dispatch(json),
            None => DispatchView::Ignore,
        },
        IncomingView::Close => DispatchView::ReportClose,
        IncomingView::Other => DispatchView::Ignore,
        IncomingView::Failed => DispatchView::ReportFailure,
        IncomingView::Ended => DispatchView::Stop,
    }
}

/// The text of what arrived; empty where there is none.
pub open spec fn incoming_text(incoming: IncomingView) -> Seq<char> {
    match incoming {
        IncomingView::Text(text) => text,
        _ => Seq::<char>::empty(),
    }
}

impl DispatchView {
    /// The client is served no longer.
    pub open spec fn ends(self) -> bool {
        self is ReportClose || self is ReportFailure || self is Stop
    }
}

/// Tells a JSON value apart by its member `msg_type`.
pub fn dispatch_json(json: Json) -> (dispatch: Dispatch)
    ensures
        dispatch@ == json_dispatch(json@),
{
    let msg_type = match json.get("msg_type") {
        Some(value) => MessageType::from_json(value),
        None => {
            return Dispatch::Ignore;
        },
    };
    match msg_type {
        Some(MessageType::Chat) => Dispatch::Chat(json),
        Some(MessageType::Offer) => Dispatch::Offer(json),
        Some(MessageType::Answer) => Dispatch::Answer(json),
        Some(MessageType::IceCandidate) => Dispatch::IceCandidate(json),
        Some(MessageType::NewVideoTrack) => Dispatch::NewVideoTrack,
        None => Dispatch::UnknownType,
    }
}

/// The value that a dispatch hands on; nothing where it hands on none.
pub open spec fn handed_on(dispatch: DispatchView) -> Option<JsonView> {
    match dispatch {
        DispatchView::Chat(json) => Some(json),
        DispatchView::Offer(json) => Some(json),
        DispatchView::Answer(json) => Some(json),
        DispatchView::IceCandidate(json) => Some(json),
        _ => None,
    }
}

/// The dispatch goes by the type of the given name.
pub open spec fn goes_by(dispatch: DispatchView, name: Seq<char>) -> bool {
    match crate::message::named_type(name) {
        Some(MessageType::Chat) => dispatch is Chat,
        Some(MessageType::Offer) => dispatch is Offer,
        Some(MessageType::Answer) => dispatch is Answer,
        Some(MessageType::IceCandidate) => dispatch is IceCandidate,
        Some(MessageType::NewVideoTrack) => dispatch is NewVideoTrack,
        None => dispatch is UnknownType,
    }
}

/// A text as the server writes it is dispatched by its type, and what is handed
/// on is read as the very message that was written.
pub open spec fn understood(text: Seq<char>, dispatch: DispatchView) -> bool {
    &&& forall|message: ContentView|
        text == #[trigger] crate::message::content_text(message) ==> {
            &&& goes_by(dispatch, message.msg_type)
            &&& handed_on(dispatch) matches Some(json) ==> crate::message::content_of(json)
                == Some(message)
        }
    &&& forall|message: IceCandidateView|
        text == #[trigger] crate::message::candidate_text(message) ==> {
            &&& goes_by(dispatch, message.msg_type)
            &&& handed_on(dispatch) matches Some(json) ==> crate::message::candidate_of(json)
                == Some(message)
        }
    &&& forall|message: NewTrackView|
        text == #[trigger] crate::message::track_text(message) ==> goes_by(
            dispatch,
            message.msg_type,
        )
}

/// What is read from a text as the server writes it, is understood.
proof fn lemma_understood(text: Seq<char>, read: Option<JsonView>)
    requires
        crate::json::reads_objects(text, read),
    ensures
        understood(text, dispatched(IncomingView::Text(text), read)),
{
    assert forall|message: ContentView|
        text == #[trigger] crate::message::content_text(message) implies {
        let dispatch = dispatched(IncomingView::Text(text), read);
        &&& goes_by(dispatch, message.msg_type)
        &&& handed_on(dispatch) matches Some(json) ==> crate::message::content_of(json) == Some(
            message,
        )
    } by {
        crate::laws::lemma_content_names(message);
        crate::laws::law_content_read_back(read->0, message);
    }
    assert forall|message: IceCandidateView|
        text == #[trigger] crate::message::candidate_text(message) implies {
        let dispatch = dispatched(IncomingView::Text(text), read);
        &&& goes_by(dispatch, message.msg_type)
        &&& handed_on(dispatch) matches Some(json) ==> crate::message::candidate_of(json) == Some(
            message,
        )
    } by {
        crate::laws::lemma_candidate_names(message);
        crate::laws::law_candidate_read_back(read->0, message);
    }
    assert forall|message: NewTrackView|
        text == #[trigger] crate::message::track_text(message) implies goes_by(
        dispatched(IncomingView::Text(text), read),
        message.msg_type,
    ) by {
        crate::laws::lemma_track_names(message);
        crate::laws::law_track_read_back(read->0, message);
    }
}

/// Decides about what arrived from a client. A text that the server itself has
/// written is understood as it was meant.
pub fn handle_messages(incoming: Incoming) -> (dispatch: Dispatch)
    ensures
        dispatch@ == dispatched(
            incoming@,
            crate::json::json_text(incoming_text(incoming@)),
        ),
        match incoming {
            Incoming::Text(text) => match crate::json::json_text(text@) {
                Some(json) => dispatch@ == json_dispatch(json),
                None => dispatch is Ignore,
            },
            Incoming::Close => dispatch is ReportClose,
            Incoming::Other => dispatch is Ignore,
            Incoming::Failed => dispatch is ReportFailure,
            Incoming::Ended => dispatch is Stop,
        },
        incoming@ matches IncomingView::Text(text) ==> understood(text, dispatch@),
{
    match incoming {
        Incoming::Text(text) => {
            let json = read_json(text.as_str());
            proof {
                lemma_understood(text@, crate::json::json_text(text@));
            }
            match json {
                Some(json) => dispatch_json(json),
                None => Dispatch::Ignore,
            }
        },
        Incoming::Close => Dispatch::ReportClose,
        Incoming::Other => Dispatch::Ignore,
        Incoming::Failed => Dispatch::ReportFailure,
        Incoming::Ended => Dispatch::Stop,
    }
}

} // verus!
