//! The messages that the server and its clients exchange, and their JSON form.
//!
//! A record is read from an object, by the names of its fields and whatever
//! else the object holds, or from an array with just the values of its fields
//! in their order. It is written as an object.

use vstd::prelude::*;

use crate::json::{Json, JsonView};
use crate::text::{write_object, Scalar, ScalarView};

verus! {

/// What a message is about.
#[derive(Clone, Copy, Debug, PartialEq, Eq, Structural)]
pub enum MessageType {
    Chat,
    Offer,
    Answer,
    IceCandidate,
    NewVideoTrack,
}

/// A line of chat.
#[derive(Debug)]
pub struct ChatMessage {
    pub msg_type: String,
    pub content: String,
}

/// A session description offered.
#[derive(Debug)]
pub struct OfferSignalMessage {
    pub msg_type: String,
    pub content: String,
}

/// A session description that answers an offer.
#[derive(Debug)]
pub struct AnswerSignalMessage {
    pub msg_type: String,
    pub content: String,
}

/// An address at which a peer may be reached.
#[derive(Debug)]
pub struct IceCandidateSignalMessage {
    pub msg_type: String,
    pub content: String,
    pub sdp_mid: Option<String>,
    pub sdp_mline_index: Option<u16>,
    pub username_fragment: Option<String>,
}

/// The notice that a peer sends a new track.
#[derive(Debug)]
pub struct NewTrackSignalMessage {
    pub msg_type: String,
    pub ssrc: String,
    pub mid: String,
    pub payload_type: String,
}

/// A chat line, an offer or an answer, seen as a mathematical value.
pub struct ContentView {
    pub msg_type: Seq<char>,
    pub content: Seq<char>,
}

/// A candidate message, seen as a mathematical value.
pub struct IceCandidateView {
    pub msg_type: Seq<char>,
    pub content: Seq<char>,
    pub sdp_mid: Option<Seq<char>>,
    pub sdp_mline_index: Option<u16>,
    pub username_fragment: Option<Seq<char>>,
}

/// A track notice, seen as a mathematical value.
pub struct NewTrackView {
    pub msg_type: Seq<char>,
    pub ssrc: Seq<char>,
    pub mid: Seq<char>,
    pub payload_type: Seq<char>,
}

/// An optional string, seen as a mathematical value.
pub open spec fn text_view(text: Option<String>) -> Option<Seq<char>> {
    match text {
        Some(s) => Some(s@),
        None => None,
    }
}

impl View for ChatMessage {
    type V = ContentView;

    open spec fn view(&self) -> ContentView {
        ContentView { msg_type: self.msg_type@, content: self.content@ }
    }
}

impl View for OfferSignalMessage {
    type V = ContentView;

    open spec fn view(&self) -> ContentView {
        ContentView { msg_type: self.msg_type@, content: self.content@ }
    }
}

impl View for AnswerSignalMessage {
    type V = ContentView;

    open spec fn view(&self) -> ContentView {
        ContentView { msg_type: self.msg_type@, content: self.content@ }
    }
}

impl View for IceCandidateSignalMessage {
    type V = IceCandidateView;

    open spec fn view(&self) -> IceCandidateView {
        IceCandidateView {
            msg_type: self.msg_type@,
            content: self.content@,
            sdp_mid: text_view(self.sdp_mid),
            sdp_mline_index: self.sdp_mline_index,
            username_fragment: text_view(self.username_fragment),
        }
    }
}

impl View for NewTrackSignalMessage {
    type V = NewTrackView;

    open spec fn view(&self) -> NewTrackView {
        NewTrackView {
            msg_type: self.msg_type@,
            ssrc: self.ssrc@,
            mid: self.mid@,
            payload_type: self.payload_type@,
        }
    }
}

// ---------------------------------------------------------------------------
// Reading
// ---------------------------------------------------------------------------

/// The name of a message type on the wire.
pub open spec fn wire_name(msg_type: MessageType) -> Seq<char> {
    match msg_type {
        MessageType::Chat => "Chat"@,
        MessageType::Offer => "Offer"@,
        MessageType::Answer => "Answer"@,
        MessageType::IceCandidate => "IceCandidate"@,
        MessageType::NewVideoTrack => "NewVideoTrack"@,
    }
}

/// The message type of the given name.
pub open spec fn named_type(name: Seq<char>) -> Option<MessageType> {
    if name == "Chat"@ {
        Some(MessageType::Chat)
    } else if name == "Offer"@ {
        Some(MessageType::Offer)
    } else if name == "Answer"@ {
        Some(MessageType::Answer)
    } else if name == "IceCandidate"@ {
        Some(MessageType::IceCandidate)
    } else if name == "NewVideoTrack"@ {
        Some(MessageType::NewVideoTrack)
    } else {
        None
    }
}

/// The message type that a JSON value stands for: its name as a string, or an
/// object with just one member, of that name and with the value null.
pub open spec fn type_of(value: JsonView) -> Option<MessageType> {
    match value {
        JsonView::Text(name) => named_type(name),
        JsonView::Object(members) => if members.len() == 1 && members[0].1 is Null {
            named_type(members[0].0)
        } else {
            None
        },
        _ => None,
    }
}

/// A record of so many fields can be read from the value.
pub open spec fn is_record(value: JsonView, fields: nat) -> bool {
    match value {
        JsonView::Object(_) => true,
        JsonView::Array(items) => items.len() == fields,
        _ => false,
    }
}

/// The value of a record's field, given its name and its place.
pub open spec fn field(value: JsonView, name: Seq<char>, place: int) -> Option<JsonView> {
    match value {
        JsonView::Array(items) => if 0 <= place < items.len() {
            Some(items[place])
        } else {
            None
        },
        _ => value.get(name),
    }
}

/// A field that must be a string.
pub open spec fn string_field(value: Option<JsonView>) -> Option<Seq<char>> {
    match value {
        Some(JsonView::Text(s)) => Some(s),
        _ => None,
    }
}

/// A field that is a string, or null or absent.
pub open spec fn optional_string_field(value: Option<JsonView>) -> Option<Option<Seq<char>>> {
    match value {
        None => Some(None),
        Some(JsonView::Null) => Some(None),
        Some(JsonView::Text(s)) => Some(Some(s)),
        _ => None,
    }
}

/// A field that is a whole number from 0 to 65535, or null or absent.
pub open spec fn optional_u16_field(value: Option<JsonView>) -> Option<Option<u16>> {
    match value {
        None => Some(None),
        Some(JsonView::Null) => Some(None),
        Some(JsonView::Number(Some(n))) => if n <= u16::MAX {
            Some(Some(n as u16))
        } else {
            None
        },
        _ => None,
    }
}

/// The chat line, offer or answer that a JSON value stands for.
pub open spec fn content_of(value: JsonView) -> Option<ContentView> {
    let msg_type = string_field(field(value, "msg_type"@, 0));
    let content = string_field(field(value, "content"@, 1));
    if is_record(value, 2) && msg_type is Some && content is Some {
        Some(ContentView { msg_type: msg_type->0, content: content->0 })
    } else {
        None
    }
}

/// The candidate message that a JSON value stands for.
pub open spec fn candidate_of(value: JsonView) -> Option<IceCandidateView> {
    let msg_type = string_field(field(value, "msg_type"@, 0));
    let content = string_field(field(value, "content"@, 1));
    let sdp_mid = optional_string_field(field(value, "sdp_mid"@, 2));
    let sdp_mline_index = optional_u16_field(field(value, "sdp_mline_index"@, 3));
    let username_fragment = optional_string_field(field(value, "username_fragment"@, 4));
    if is_record(value, 5) && msg_type is Some && content is Some && sdp_mid is Some
        && sdp_mline_index is Some && username_fragment is Some {
        Some(
            IceCandidateView {
                msg_type: msg_type->0,
                content: content->0,
                sdp_mid: sdp_mid->0,
                sdp_mline_index: sdp_mline_index->0,
                username_fragment: username_fragment->0,
            },
        )
    } else {
        None
    }
}

fn read_named_type(name: &String) -> (msg_type: Option<MessageType>)
    ensures
        msg_type == named_type(name@),
{
    if *name == "Chat".to_owned() {
        Some(MessageType::Chat)
    } else if *name == "Offer".to_owned() {
        Some(MessageType::Offer)
    } else if *name == "Answer".to_owned() {
        Some(MessageType::Answer)
    } else if *name == "IceCandidate".to_owned() {
        Some(MessageType::IceCandidate)
    } else if *name == "NewVideoTrack".to_owned() {
        Some(MessageType::NewVideoTrack)
    } else {
        None
    }
}

fn read_is_record(json: &Json, fields: usize) -> (record: bool)
    ensures
        record == is_record(json@, fields as nat),
{
    match json {
        Json::Object(_) => true,
        Json::Array(items) => items.len() == fields,
        _ => false,
    }
}

/// A JSON value that may be absent, seen as a mathematical value.
spec fn value_view(value: Option<&Json>) -> Option<JsonView> {
    match value {
        Some(json) => Some(json@),
        None => None,
    }
}

fn read_field<'a>(json: &'a Json, name: &str, place: usize) -> (value: Option<&'a Json>)
    ensures
        value_view(value) == field(json@, name@, place as int),
{
    match json {
        Json::Array(items) => {
            if place < items.len() {
                Some(&items[place])
            } else {
                None
            }
        },
        _ => json.get(name),
    }
}

fn read_string(value: Option<&Json>) -> (text: Option<String>)
    ensures
        text_view(text) == string_field(value_view(value)),
{
    match value {
        Some(Json::Text(s)) => Some(s.clone()),
        _ => None,
    }
}

fn read_optional_string(value: Option<&Json>) -> (text: Option<Option<String>>)
    ensures
        match text {
            Some(text) => optional_string_field(value_view(value)) == Some(text_view(text)),
            None => optional_string_field(value_view(value)) is None,
        },
{
    match value {
        None => Some(None),
        Some(Json::Null) => Some(None),
        Some(Json::Text(s)) => Some(Some(s.clone())),
        _ => None,
    }
}

fn read_optional_u16(value: Option<&Json>) -> (number: Option<Option<u16>>)
    ensures
        number == optional_u16_field(value_view(value)),
{
    match value {
        None => Some(None),
        Some(Json::Null) => Some(None),
        Some(Json::Number(Some(n))) => {
            if *n <= 65535 {
                Some(Some(*n as u16))
            } else {
                None
            }
        },
        _ => None,
    }
}

fn read_content(json: &Json) -> (fields: Option<(String, String)>)
    ensures
        match fields {
            Some(f) => content_of(json@) == Some(ContentView { msg_type: f.0@, content: f.1@ }),
            None => content_of(json@) is None,
        },
{
    if !read_is_record(json, 2) {
        return None;
    }
    match (
        read_string(read_field(json, "msg_type", 0)),
        read_string(read_field(json, "content", 1)),
    ) {
        (Some(msg_type), Some(content)) => Some((msg_type, content)),
        _ => None,
    }
}

impl MessageType {
    /// Reads a message type.
    pub fn from_json(json: &Json) -> (msg_type: Option<MessageType>)
        ensures
            msg_type == type_of(json@),
    {
        match json {
            Json::Text(name) => read_named_type(name),
            Json::Object(members) => {
                if members.len() == 1 {
                    proof {
                        assert(json@->Object_0[0] == (members[0].0@, members[0].1@));
                        assert(members[0].1@ is Null <==> members[0].1 is Null);
                    }
                    match members[0].1 {
                        Json::Null => read_named_type(&members[0].0),
                        _ => None,
                    }
                } else {
                    None
                }
            },
            _ => None,
        }
    }
}

impl ChatMessage {
    /// Reads a chat line.
    pub fn from_json(json: &Json) -> (message: Option<ChatMessage>)
        ensures
            match message {
                Some(message) => content_of(json@) == Some(message@),
                None => content_of(json@) is None,
            },
    {
        match read_content(json) {
            Some((msg_type, content)) => Some(ChatMessage { msg_type, content }),
            None => None,
        }
    }
}

impl OfferSignalMessage {
    /// Reads an offer.
    pub fn from_json(json: &Json) -> (message: Option<OfferSignalMessage>)
        ensures
            match message {
                Some(message) => content_of(json@) == Some(message@),
                None => content_of(json@) is None,
            },
    {
        match read_content(json) {
            Some((msg_type, content)) => Some(OfferSignalMessage { msg_type, content }),
            None => None,
        }
    }
}

impl AnswerSignalMessage {
    /// Reads an answer.
    pub fn from_json(json: &Json) -> (message: Option<AnswerSignalMessage>)
        ensures
            match message {
                Some(message) => content_of(json@) == Some(message@),
                None => content_of(json@) is None,
            },
    {
        match read_content(json) {
            Some((msg_type, content)) => Some(AnswerSignalMessage { msg_type, content }),
            None => None,
        }
    }
}

impl IceCandidateSignalMessage {
    /// Reads a candidate message.
    pub fn from_json(json: &Json) -> (message: Option<IceCandidateSignalMessage>)
        ensures
            match message {
                Some(message) => candidate_of(json@) == Some(message@),
                None => candidate_of(json@) is None,
            },
    {
        if !read_is_record(json, 5) {
            return None;
        }
        match (
            read_string(read_field(json, "msg_type", 0)),
            read_string(read_field(json, "content", 1)),
            read_optional_string(read_field(json, "sdp_mid", 2)),
            read_optional_u16(read_field(json, "sdp_mline_index", 3)),
            read_optional_string(read_field(json, "username_fragment", 4)),
        ) {
            (
                Some(msg_type),
                Some(content),
                Some(sdp_mid),
                Some(sdp_mline_index),
                Some(username_fragment),
            ) => Some(
                IceCandidateSignalMessage {
                    msg_type,
                    content,
                    sdp_mid,
                    sdp_mline_index,
                    username_fragment,
                },
            ),
            _ => None,
        }
    }
}

// ---------------------------------------------------------------------------
// Writing
// ---------------------------------------------------------------------------

/// The fields of a chat line, an offer or an answer.
pub open spec fn content_fields(message: ContentView) -> Seq<(Seq<char>, ScalarView)> {
    seq![
        ("msg_type"@, ScalarView::Text(message.msg_type)),
        ("content"@, ScalarView::Text(message.content)),
    ]
}

/// An optional string as a field value.
pub open spec fn optional_string(text: Option<Seq<char>>) -> ScalarView {
    match text {
        Some(s) => ScalarView::Text(s),
        None => ScalarView::Null,
    }
}

/// An optional number as a field value.
pub open spec fn optional_u16(number: Option<u16>) -> ScalarView {
    match number {
        Some(n) => ScalarView::Number(n as u64),
        None => ScalarView::Null,
    }
}

/// The fields of a candidate message.
pub open spec fn candidate_fields(message: IceCandidateView) -> Seq<(Seq<char>, ScalarView)> {
    seq![
        ("msg_type"@, ScalarView::Text(message.msg_type)),
        ("content"@, ScalarView::Text(message.content)),
        ("sdp_mid"@, optional_string(message.sdp_mid)),
        ("sdp_mline_index"@, optional_u16(message.sdp_mline_index)),
        ("username_fragment"@, optional_string(message.username_fragment)),
    ]
}

/// The fields of a track notice.
pub open spec fn track_fields(message: NewTrackView) -> Seq<(Seq<char>, ScalarView)> {
    seq![
        ("msg_type"@, ScalarView::Text(message.msg_type)),
        ("ssrc"@, ScalarView::Text(message.ssrc)),
        ("mid"@, ScalarView::Text(message.mid)),
        ("payload_type"@, ScalarView::Text(message.payload_type)),
    ]
}

/// The text of a chat line, an offer or an answer.
pub open spec fn content_text(message: ContentView) -> Seq<char> {
    crate::text::object_text(content_fields(message))
}

/// The text of a candidate message.
pub open spec fn candidate_text(message: IceCandidateView) -> Seq<char> {
    crate::text::object_text(candidate_fields(message))
}

/// The text of a track notice.
pub open spec fn track_text(message: NewTrackView) -> Seq<char> {
    crate::text::object_text(track_fields(message))
}

fn write_content(msg_type: &String, content: &String) -> (text: String)
    ensures
        text@ == content_text(ContentView { msg_type: msg_type@, content: content@ }),
{
    let fields = vec![
        ("msg_type", Scalar::Text(msg_type.clone())),
        ("content", Scalar::Text(content.clone())),
    ];
    proof {
        assert(crate::text::fields_view(fields@) =~= content_fields(
            ContentView { msg_type: msg_type@, content: content@ },
        ));
    }
    write_object(&fields)
}

fn write_optional_string(text: &Option<String>) -> (value: Scalar)
    ensures
        value@ == optional_string(text_view(*text)),
{
    match text {
        Some(s) => Scalar::Text(s.clone()),
        None => Scalar::Null,
    }
}

fn write_optional_u16(number: Option<u16>) -> (value: Scalar)
    ensures
        value@ == optional_u16(number),
{
    match number {
        Some(n) => Scalar::Number(n as u64),
        None => Scalar::Null,
    }
}

impl ChatMessage {
    /// The message as JSON text.
    pub fn to_text(&self) -> (text: String)
        ensures
            text@ == content_text(self@),
    {
        write_content(&self.msg_type, &self.content)
    }
}

impl OfferSignalMessage {
    /// The message as JSON text.
    pub fn to_text(&self) -> (text: String)
        ensures
            text@ == content_text(self@),
    {
        write_content(&self.msg_type, &self.content)
    }
}

impl AnswerSignalMessage {
    /// The message as JSON text.
    pub fn to_text(&self) -> (text: String)
        ensures
            text@ == content_text(self@),
    {
        write_content(&self.msg_type, &self.content)
    }
}

impl IceCandidateSignalMessage {
    /// The message as JSON text.
    pub fn to_text(&self) -> (text: String)
        ensures
            text@ == candidate_text(self@),
    {
        let fields = vec![
            ("msg_type", Scalar::Text(self.msg_type.clone())),
            ("content", Scalar::Text(self.content.clone())),
            ("sdp_mid", write_optional_string(&self.sdp_mid)),
            ("sdp_mline_index", write_optional_u16(self.sdp_mline_index)),
            ("username_fragment", write_optional_string(&self.username_fragment)),
        ];
        proof {
            assert(crate::text::fields_view(fields@) =~= candidate_fields(self@));
        }
        write_object(&fields)
    }
}

impl NewTrackSignalMessage {
    /// The message as JSON text.
    pub fn to_text(&self) -> (text: String)
        ensures
            text@ == track_text(self@),
    {
        let fields = vec![
            ("msg_type", Scalar::Text(self.msg_type.clone())),
            ("ssrc", Scalar::Text(self.ssrc.clone())),
            ("mid", Scalar::Text(self.mid.clone())),
            ("payload_type", Scalar::Text(self.payload_type.clone())),
        ];
        proof {
            assert(crate::text::fields_view(fields@) =~= track_fields(self@));
        }
        write_object(&fields)
    }
}

} // verus!
