//! What each operation promises, from what goes in to what comes out.

use vstd::prelude::*;
use webrtc::peer_connection::sdp::session_description::RTCSessionDescription;

use crate::chat::{Outgoing, OutgoingView};
use crate::json::{Json, JsonView};
use crate::laws::StepView;
use crate::message::{
    AnswerSignalMessage, ChatMessage, ContentView, IceCandidateSignalMessage, IceCandidateView,
    MessageType, NewTrackSignalMessage, OfferSignalMessage,
};
use crate::negotiation::{
    CandidateInit, CandidateInitView, LocalCandidateView, Negotiation, NegotiationView,
    OfferAction, OfferActionView, OfferStage, Outcome, OutcomeView, OwnOfferAction,
    OwnOfferActionView, Stage,
};
use crate::registry::Address;
use crate::server::{Dispatch, DispatchView, Incoming, IncomingView};
use crate::session::{Frame, Response, ResponseView, World};
use crate::text::{Scalar, ScalarView};

verus! {

// ---------------------------------------------------------------------------
// Texts
// ---------------------------------------------------------------------------

proof fn lemma_escaped_concat(a: Seq<char>, b: Seq<char>)
    ensures
        crate::text::escaped_text(a + b) == crate::text::escaped_text(a)
            + crate::text::escaped_text(b),
    decreases a.len(),
{
    if a.len() == 0 {
        assert(a + b =~= b);
    } else {
        assert((a + b)[0] == a[0]);
        assert((a + b).drop_first() =~= a.drop_first() + b);
        lemma_escaped_concat(a.drop_first(), b);
        assert(crate::text::escaped_text(a + b) =~= crate::text::escaped_text(a)
            + crate::text::escaped_text(b));
    }
}

/// Two texts in one string are the strings of each, run together between one
/// pair of quotes; the empty text is the quotes alone.
pub proof fn law_strings_run_together(a: Seq<char>, b: Seq<char>)
    ensures
        crate::text::quoted(Seq::<char>::empty()) == seq!['"', '"'],
        crate::text::quoted(a + b) == crate::text::quoted(a).drop_last() + crate::text::quoted(
            b,
        ).drop_first(),
{
    lemma_escaped_concat(a, b);
    assert(crate::text::quoted(Seq::<char>::empty()) =~= seq!['"', '"']);
    assert(crate::text::quoted(a + b) =~= crate::text::quoted(a).drop_last()
        + crate::text::quoted(b).drop_first());
}

/// A character in a string: as it is, unless it is a quote, a backslash or a
/// control character.
pub proof fn law_character_in_a_string(c: char)
    ensures
        ({
            let code = c as int;
            let string = crate::text::quoted(seq![c]);
            if c == '"' || c == '\\' {
                string == seq!['"', '\\', c, '"']
            } else if code >= 32 {
                string == seq!['"', c, '"']
            } else if code == 8 {
                string == seq!['"', '\\', 'b', '"']
            } else if code == 9 {
                string == seq!['"', '\\', 't', '"']
            } else if code == 10 {
                string == seq!['"', '\\', 'n', '"']
            } else if code == 12 {
                string == seq!['"', '\\', 'f', '"']
            } else if code == 13 {
                string == seq!['"', '\\', 'r', '"']
            } else {
                &&& string.len() == 8
                &&& string.take(5) == seq!['"', '\\', 'u', '0', '0']
                &&& string[5] as int == 48 + code / 16
                &&& string[6] as int == if code % 16 < 10 {
                    48 + code % 16
                } else {
                    87 + code % 16
                }
                &&& string[7] == '"'
            }
        }),
{
    let one = seq![c];
    assert(one.drop_first() =~= Seq::<char>::empty());
    assert(crate::text::escaped_text(Seq::<char>::empty()) =~= seq![]);
    assert(crate::text::escaped_text(one) =~= crate::text::escaped(c));
    let string = crate::text::quoted(one);
    assert(string =~= seq!['"'] + crate::text::escaped(c) + seq!['"']);
    let code = c as int;
    if code < 32 && code != 8 && code != 9 && code != 10 && code != 12 && code != 13 {
        assert(string.take(5) =~= seq!['"', '\\', 'u', '0', '0']);
    }
}

/// The number that digits stand for.
pub open spec fn digits_value(digits: Seq<char>) -> int
    decreases digits.len(),
{
    if digits.len() == 0 {
        0
    } else {
        10 * digits_value(digits.drop_last()) + (digits.last() as int - 48)
    }
}

/// A number in decimal is digits only, without leading zeros, and they stand for it.
pub proof fn law_decimal_stands_for_number(n: nat)
    ensures
        ({
            let digits = crate::text::decimal(n);
            &&& digits.len() > 0
            &&& forall|i: int| 0 <= i < digits.len() ==> '0' <= #[trigger] digits[i] <= '9'
            &&& digits[0] == '0' ==> n == 0 && digits.len() == 1
            &&& digits_value(digits) == n
        }),
    decreases n,
{
    let digits = crate::text::decimal(n);
    if n < 10 {
        assert(digits.drop_last() =~= Seq::<char>::empty());
        assert(digits_value(Seq::<char>::empty()) == 0);
        assert(digits.last() as int == 48 + n);
    } else {
        law_decimal_stands_for_number(n / 10);
        assert(digits.drop_last() =~= crate::text::decimal(n / 10));
        assert(digits.last() as int == 48 + n % 10);
        assert(digits[0] == crate::text::decimal(n / 10)[0]);
    }
}

proof fn lemma_fields_concat(
    a: Seq<(Seq<char>, ScalarView)>,
    b: Seq<(Seq<char>, ScalarView)>,
)
    requires
        a.len() > 0,
        b.len() > 0,
    ensures
        crate::text::fields_text(a + b) == crate::text::fields_text(a) + seq![',']
            + crate::text::fields_text(b),
    decreases a.len(),
{
    assert((a + b)[0] == a[0]);
    assert((a + b).drop_first() =~= a.drop_first() + b);
    if a.len() == 1 {
        assert(a.drop_first() + b =~= b);
    } else {
        lemma_fields_concat(a.drop_first(), b);
    }
    assert(crate::text::fields_text(a + b) =~= crate::text::fields_text(a) + seq![',']
        + crate::text::fields_text(b));
}

/// An object without fields, with one field, and with the fields of two objects:
/// there is a comma between them and no white space anywhere.
pub proof fn law_objects_run_together(
    name: Seq<char>,
    value: ScalarView,
    a: Seq<(Seq<char>, ScalarView)>,
    b: Seq<(Seq<char>, ScalarView)>,
)
    ensures
        crate::text::object_text(seq![]) == seq!['{', '}'],
        crate::text::object_text(seq![(name, value)]) == seq!['{'] + crate::text::quoted(name)
            + seq![':'] + (match value {
            ScalarView::Null => seq!['n', 'u', 'l', 'l'],
            ScalarView::Text(text) => crate::text::quoted(text),
            ScalarView::Number(n) => crate::text::decimal(n as nat),
        }) + seq!['}'],
        a.len() > 0 && b.len() > 0 ==> crate::text::object_text(a + b)
            == crate::text::object_text(a).drop_last() + seq![','] + crate::text::object_text(
            b,
        ).drop_first(),
{
    assert(crate::text::object_text(seq![]) =~= seq!['{', '}']);
    let one = seq![(name, value)];
    assert(one[0] == (name, value));
    assert(crate::text::object_text(one) =~= seq!['{'] + crate::text::quoted(name) + seq![':']
        + crate::text::scalar_text(value) + seq!['}']);
    if a.len() > 0 && b.len() > 0 {
        lemma_fields_concat(a, b);
        assert(crate::text::object_text(a + b) =~= crate::text::object_text(a).drop_last()
            + seq![','] + crate::text::object_text(b).drop_first());
    }
}

/// The text of a chat line, an offer or an answer has its two fields, in this order.
pub proof fn law_content_written(message: ContentView)
    ensures
        crate::message::content_text(message) == crate::text::object_text(
            seq![
                ("msg_type"@, ScalarView::Text(message.msg_type)),
                ("content"@, ScalarView::Text(message.content)),
            ],
        ),
{
}

/// The text of a candidate message has its five fields, in this order; what is
/// absent is null.
pub proof fn law_candidate_written(message: IceCandidateView)
    ensures
        crate::message::candidate_text(message) == crate::text::object_text(
            seq![
                ("msg_type"@, ScalarView::Text(message.msg_type)),
                ("content"@, ScalarView::Text(message.content)),
                (
                    "sdp_mid"@,
                    match message.sdp_mid {
                        Some(s) => ScalarView::Text(s),
                        None => ScalarView::Null,
                    },
                ),
                (
                    "sdp_mline_index"@,
                    match message.sdp_mline_index {
                        Some(n) => ScalarView::Number(n as u64),
                        None => ScalarView::Null,
                    },
                ),
                (
                    "username_fragment"@,
                    match message.username_fragment {
                        Some(s) => ScalarView::Text(s),
                        None => ScalarView::Null,
                    },
                ),
            ],
        ),
{
    assert(crate::message::candidate_fields(message) =~= seq![
            ("msg_type"@, ScalarView::Text(message.msg_type)),
            ("content"@, ScalarView::Text(message.content)),
            (
                "sdp_mid"@,
                match message.sdp_mid {
                    Some(s) => ScalarView::Text(s),
                    None => ScalarView::Null,
                },
            ),
            (
                "sdp_mline_index"@,
                match message.sdp_mline_index {
                    Some(n) => ScalarView::Number(n as u64),
                    None => ScalarView::Null,
                },
            ),
            (
                "username_fragment"@,
                match message.username_fragment {
                    Some(s) => ScalarView::Text(s),
                    None => ScalarView::Null,
                },
            ),
        ]);
}

/// The notice of a track tells its source and its payload type in decimal, and
/// its name as it is.
pub proof fn law_track_notice_written(ssrc: u32, mid: Seq<char>, payload_type: u8)
    ensures
        crate::message::track_text(crate::chat::track_notice(ssrc, mid, payload_type))
            == crate::text::object_text(
            seq![
                ("msg_type"@, ScalarView::Text("NewVideoTrack"@)),
                ("ssrc"@, ScalarView::Text(crate::text::decimal(ssrc as nat))),
                ("mid"@, ScalarView::Text(mid)),
                ("payload_type"@, ScalarView::Text(crate::text::decimal(payload_type as nat))),
            ],
        ),
{
}

/// The text of any track notice has its four fields, in this order.
pub proof fn law_track_written(message: NewTrackSignalMessage)
    ensures
        crate::message::track_text(message@) == crate::text::object_text(
            seq![
                ("msg_type"@, ScalarView::Text(message.msg_type@)),
                ("ssrc"@, ScalarView::Text(message.ssrc@)),
                ("mid"@, ScalarView::Text(message.mid@)),
                ("payload_type"@, ScalarView::Text(message.payload_type@)),
            ],
        ),
{
}

// ---------------------------------------------------------------------------
// Reading
// ---------------------------------------------------------------------------

/// In an object in which no name occurs twice, a member is found by its name;
/// and by a name that no member has, nothing is found. Other values have no members.
pub proof fn law_members_found(members: Seq<(Seq<char>, JsonView)>, name: Seq<char>)
    requires
        forall|i: int, j: int|
            0 <= i < j < members.len() ==> (#[trigger] members[i]).0 != (#[trigger] members[j]).0,
    ensures
        forall|i: int|
            0 <= i < members.len() && (#[trigger] members[i]).0 == name ==> JsonView::Object(
                members,
            ).get(name) == Some(members[i].1),
        (forall|i: int| 0 <= i < members.len() ==> (#[trigger] members[i]).0 != name)
            ==> JsonView::Object(members).get(name) is None,
        forall|value: JsonView| !(value is Object) ==> (#[trigger] value.get(name)) is None,
{
    assert(crate::json::distinct_names(members));
    assert forall|i: int| 0 <= i < members.len() && (#[trigger] members[i]).0
        == name implies JsonView::Object(members).get(name) == Some(members[i].1) by {
        crate::laws::lemma_member_at(members, i);
    }
    if crate::json::member(members, name) is Some {
        let i = crate::laws::lemma_member_stands(members, name);
        assert(members[i].0 == name);
    }
}

/// A message type is known by its name in a string, or in an object as the only
/// name, with null; and there are five.
pub proof fn law_types_known(name: Seq<char>, value: JsonView)
    ensures
        ({
            let known = if name == "Chat"@ {
                Some(MessageType::Chat)
            } else if name == "Offer"@ {
                Some(MessageType::Offer)
            } else if name == "Answer"@ {
                Some(MessageType::Answer)
            } else if name == "IceCandidate"@ {
                Some(MessageType::IceCandidate)
            } else if name == "NewVideoTrack"@ {
                Some(MessageType::NewVideoTrack)
            } else {
                None
            };
            &&& crate::message::type_of(JsonView::Text(name)) == known
            &&& crate::message::type_of(JsonView::Object(seq![(name, JsonView::Null)])) == known
        }),
        crate::message::type_of(value) is Some ==> value is Text || (
        value matches JsonView::Object(members) && members.len() == 1 && members[0].1 is Null),
{
    assert(seq![(name, JsonView::Null)][0] == (name, JsonView::Null));
}

/// A chat line, an offer or an answer is read from an object just if both of its
/// fields stand in it as strings, and then with those strings, whatever else
/// stands there.
pub proof fn law_content_read_from_object(
    members: Seq<(Seq<char>, JsonView)>,
    message: ContentView,
)
    requires
        forall|i: int, j: int|
            0 <= i < j < members.len() ==> (#[trigger] members[i]).0 != (#[trigger] members[j]).0,
    ensures
        crate::message::content_of(JsonView::Object(members)) == Some(message) <==> {
            &&& exists|i: int|
                0 <= i < members.len() && #[trigger] members[i] == (
                    "msg_type"@,
                    JsonView::Text(message.msg_type),
                )
            &&& exists|i: int|
                0 <= i < members.len() && #[trigger] members[i] == (
                    "content"@,
                    JsonView::Text(message.content),
                )
        },
{
    lemma_found(members, "msg_type"@, JsonView::Text(message.msg_type));
    lemma_found(members, "content"@, JsonView::Text(message.content));
}

proof fn lemma_found(members: Seq<(Seq<char>, JsonView)>, name: Seq<char>, value: JsonView)
    requires
        forall|i: int, j: int|
            0 <= i < j < members.len() ==> (#[trigger] members[i]).0 != (#[trigger] members[j]).0,
    ensures
        crate::json::member(members, name) == Some(value) <==> exists|i: int|
            0 <= i < members.len() && #[trigger] members[i] == (name, value),
{
    if crate::json::member(members, name) == Some(value) {
        let i = crate::laws::lemma_member_stands(members, name);
        assert(members[i] == (name, value));
    }
    if exists|i: int| 0 <= i < members.len() && #[trigger] members[i] == (name, value) {
        let i = choose|i: int| 0 <= i < members.len() && #[trigger] members[i] == (name, value);
        law_members_found(members, name);
        assert(members[i].0 == name);
    }
}

/// A chat line, an offer or an answer is read from an array just if it holds two
/// strings, the type and the content; and from nothing but objects and arrays.
pub proof fn law_content_read_from_array(
    items: Seq<JsonView>,
    message: ContentView,
    other: JsonView,
)
    ensures
        crate::message::content_of(JsonView::Array(items)) == Some(message) <==> items == seq![
            JsonView::Text(message.msg_type),
            JsonView::Text(message.content),
        ],
        crate::message::content_of(other) is Some ==> other is Object || other is Array,
{
    let both = seq![JsonView::Text(message.msg_type), JsonView::Text(message.content)];
    if crate::message::content_of(JsonView::Array(items)) == Some(message) {
        assert(items =~= both);
    }
    assert(both[0] == JsonView::Text(message.msg_type));
    assert(both[1] == JsonView::Text(message.content));
}

/// A candidate message is read from an object just if its type and its content
/// stand in it as strings, and each of the other fields as a string or a number
/// of its range, as null, or not at all; and then with what stands there.
pub proof fn law_candidate_read_from_object(
    members: Seq<(Seq<char>, JsonView)>,
    message: IceCandidateView,
)
    requires
        forall|i: int, j: int|
            0 <= i < j < members.len() ==> (#[trigger] members[i]).0 != (#[trigger] members[j]).0,
    ensures
        crate::message::candidate_of(JsonView::Object(members)) == Some(message) <==> {
            &&& exists|i: int|
                0 <= i < members.len() && #[trigger] members[i] == (
                    "msg_type"@,
                    JsonView::Text(message.msg_type),
                )
            &&& exists|i: int|
                0 <= i < members.len() && #[trigger] members[i] == (
                    "content"@,
                    JsonView::Text(message.content),
                )
            &&& match message.sdp_mid {
                Some(s) => exists|i: int|
                    0 <= i < members.len() && #[trigger] members[i] == (
                        "sdp_mid"@,
                        JsonView::Text(s),
                    ),
                None => forall|i: int|
                    0 <= i < members.len() && (#[trigger] members[i]).0 == "sdp_mid"@
                        ==> members[i].1 is Null,
            }
            &&& match message.sdp_mline_index {
                Some(n) => exists|i: int|
                    0 <= i < members.len() && #[trigger] members[i] == (
                        "sdp_mline_index"@,
                        JsonView::Number(Some(n as u64)),
                    ),
                None => forall|i: int|
                    0 <= i < members.len() && (#[trigger] members[i]).0 == "sdp_mline_index"@
                        ==> members[i].1 is Null,
            }
            &&& match message.username_fragment {
                Some(s) => exists|i: int|
                    0 <= i < members.len() && #[trigger] members[i] == (
                        "username_fragment"@,
                        JsonView::Text(s),
                    ),
                None => forall|i: int|
                    0 <= i < members.len() && (#[trigger] members[i]).0 == "username_fragment"@
                        ==> members[i].1 is Null,
            }
        },
{
    lemma_found(members, "msg_type"@, JsonView::Text(message.msg_type));
    lemma_found(members, "content"@, JsonView::Text(message.content));
    if let Some(s) = message.sdp_mid {
        lemma_found(members, "sdp_mid"@, JsonView::Text(s));
    }
    if let Some(n) = message.sdp_mline_index {
        lemma_found(members, "sdp_mline_index"@, JsonView::Number(Some(n as u64)));
    }
    if let Some(s) = message.username_fragment {
        lemma_found(members, "username_fragment"@, JsonView::Text(s));
    }
    lemma_null_or_absent(members, "sdp_mid"@);
    lemma_null_or_absent(members, "sdp_mline_index"@);
    lemma_null_or_absent(members, "username_fragment"@);
}

proof fn lemma_null_or_absent(members: Seq<(Seq<char>, JsonView)>, name: Seq<char>)
    requires
        forall|i: int, j: int|
            0 <= i < j < members.len() ==> (#[trigger] members[i]).0 != (#[trigger] members[j]).0,
    ensures
        (crate::json::member(members, name) matches Some(value) ==> value is Null) <==> forall|
            i: int,
        |
            0 <= i < members.len() && (#[trigger] members[i]).0 == name ==> members[i].1 is Null,
{
    law_members_found(members, name);
    if crate::json::member(members, name) is Some {
        let i = crate::laws::lemma_member_stands(members, name);
        assert(members[i].0 == name);
    }
}

/// A candidate message is read from an array just if it holds the values of the
/// five fields, null for those that are absent; and from nothing but objects and
/// arrays.
pub proof fn law_candidate_read_from_array(
    items: Seq<JsonView>,
    message: IceCandidateView,
    other: JsonView,
)
    ensures
        crate::message::candidate_of(JsonView::Array(items)) == Some(message) <==> {
            &&& items.len() == 5
            &&& items[0] == JsonView::Text(message.msg_type)
            &&& items[1] == JsonView::Text(message.content)
            &&& items[2] == match message.sdp_mid {
                Some(s) => JsonView::Text(s),
                None => JsonView::Null,
            }
            &&& items[3] == match message.sdp_mline_index {
                Some(n) => JsonView::Number(Some(n as u64)),
                None => JsonView::Null,
            }
            &&& items[4] == match message.username_fragment {
                Some(s) => JsonView::Text(s),
                None => JsonView::Null,
            }
        },
        crate::message::candidate_of(other) is Some ==> other is Object || other is Array,
{
}

// ---------------------------------------------------------------------------
// Dispatching
// ---------------------------------------------------------------------------

/// How a text is dispatched depends on nothing but the value that it is read as;
/// and a text that cannot be read is ignored.
pub proof fn law_dispatch_depends_on_value(a: Seq<char>, b: Seq<char>)
    ensures
        crate::json::json_text(a) == crate::json::json_text(b) ==> crate::session::dispatch_of(
            IncomingView::Text(a),
        ) == crate::session::dispatch_of(IncomingView::Text(b)),
        crate::json::json_text(a) is None ==> crate::session::dispatch_of(IncomingView::Text(a))
            is Ignore,
        forall|parsed: Option<JsonView>| #[trigger]
            crate::server::dispatched(IncomingView::Text(a), parsed) == crate::server::dispatched(
                IncomingView::Text(b),
                parsed,
            ),
{
}

/// A text that is read as an object with the type as a string is dispatched by
/// that type, whatever its white space and its other members, and the very value
/// is handed on. A string that names no type is reported.
pub proof fn law_dispatched_by_type(
    text: Seq<char>,
    members: Seq<(Seq<char>, JsonView)>,
    i: int,
    name: Seq<char>,
)
    requires
        crate::json::json_text(text) == Some(JsonView::Object(members)),
        forall|i: int, j: int|
            0 <= i < j < members.len() ==> (#[trigger] members[i]).0 != (#[trigger] members[j]).0,
        0 <= i < members.len(),
        members[i] == ("msg_type"@, JsonView::Text(name)) || members[i] == (
            "msg_type"@,
            JsonView::Object(seq![(name, JsonView::Null)]),
        ),
    ensures
        ({
            let json = JsonView::Object(members);
            let dispatch = if name == "Chat"@ {
                DispatchView::Chat(json)
            } else if name == "Offer"@ {
                DispatchView::Offer(json)
            } else if name == "Answer"@ {
                DispatchView::Answer(json)
            } else if name == "IceCandidate"@ {
                DispatchView::IceCandidate(json)
            } else if name == "NewVideoTrack"@ {
                DispatchView::NewVideoTrack
            } else {
                DispatchView::UnknownType
            };
            &&& crate::session::dispatch_of(IncomingView::Text(text)) == dispatch
            &&& crate::server::dispatched(IncomingView::Text(text), Some(json)) == dispatch
            &&& crate::server::json_dispatch(json) == dispatch
        }),
{
    law_members_found(members, "msg_type"@);
    law_types_known(name, JsonView::Null);
    assert(members[i].0 == "msg_type"@);
}

/// A text that is read as an object with something else as the type is reported,
/// and one that is read as an object without a type, or as no object, is ignored.
pub proof fn law_dispatched_without_type(text: Seq<char>, json: JsonView)
    requires
        crate::json::json_text(text) == Some(json),
    ensures
        !(json is Object) ==> crate::session::dispatch_of(IncomingView::Text(text)) is Ignore,
        !(json is Object) ==> crate::server::json_dispatch(json) is Ignore,
        json matches JsonView::Object(members) ==> (forall|i: int|
            0 <= i < members.len() ==> (#[trigger] members[i]).0 != "msg_type"@)
            ==> crate::session::dispatch_of(IncomingView::Text(text)) is Ignore
            && crate::server::json_dispatch(json) is Ignore,
        json matches JsonView::Object(members) ==> forall|i: int|
            (forall|a: int, b: int|
                0 <= a < b < members.len() ==> (#[trigger] members[a]).0 != (
                #[trigger] members[b]).0) && 0 <= i < members.len() && (#[trigger] members[i]).0
                == "msg_type"@ && !(members[i].1 is Text) && !(members[i].1 is Object)
                ==> crate::session::dispatch_of(IncomingView::Text(text)) is UnknownType
                && crate::server::json_dispatch(json) is UnknownType,
{
    if let JsonView::Object(members) = json {
        if forall|i: int| 0 <= i < members.len() ==> (#[trigger] members[i]).0 != "msg_type"@ {
            if crate::json::member(members, "msg_type"@) is Some {
                let i = crate::laws::lemma_member_stands(members, "msg_type"@);
                assert(members[i].0 == "msg_type"@);
            }
        }
        if forall|a: int, b: int|
            0 <= a < b < members.len() ==> (#[trigger] members[a]).0 != (#[trigger] members[b]).0 {
            law_members_found(members, "msg_type"@);
        }
    }
}

/// What is no text is dispatched by what it is.
pub proof fn law_other_frames_dispatched(parsed: Option<JsonView>)
    ensures
        crate::server::dispatched(IncomingView::Close, parsed) is ReportClose,
        crate::server::dispatched(IncomingView::Other, parsed) is Ignore,
        crate::server::dispatched(IncomingView::Failed, parsed) is ReportFailure,
        crate::server::dispatched(IncomingView::Ended, parsed) is Stop,
        crate::session::dispatch_of(IncomingView::Close) is ReportClose,
        crate::session::dispatch_of(IncomingView::Other) is Ignore,
        crate::session::dispatch_of(IncomingView::Failed) is ReportFailure,
        crate::session::dispatch_of(IncomingView::Ended) is Stop,
{
}

// ---------------------------------------------------------------------------
// Responding
// ---------------------------------------------------------------------------

/// Texts that are delivered to some clients: each of the clients has one, each
/// text is the one to deliver, and there are no others.
pub proof fn law_delivered(sends: Seq<Outgoing>, text: Seq<char>, to: Set<Address>)
    requires
        crate::chat::delivers(crate::chat::sends_view(sends), text, to),
    ensures
        forall|i: int|
            0 <= i < sends.len() ==> (#[trigger] sends[i]).text@ == text && to.contains(
                sends[i].to,
            ),
        forall|i: int, j: int|
            0 <= i < j < sends.len() ==> (#[trigger] sends[i]).to != (#[trigger] sends[j]).to,
        forall|addr: Address| #[trigger]
            to.contains(addr) ==> exists|i: int|
                0 <= i < sends.len() && (#[trigger] sends[i]).to == addr,
{
    let views = crate::chat::sends_view(sends);
    assert(views.len() == sends.len());
    assert forall|i: int| 0 <= i < sends.len() implies (#[trigger] sends[i]).text@ == text
        && to.contains(sends[i].to) by {
        assert(views[i] == sends[i]@);
        assert(crate::chat::reaches(views, sends[i].to));
    }
    assert forall|i: int, j: int| 0 <= i < j < sends.len() implies (#[trigger] sends[i]).to != (
    #[trigger] sends[j]).to by {
        assert(views[i] == sends[i]@ && views[j] == sends[j]@);
    }
    assert forall|addr: Address| #[trigger] to.contains(addr) implies exists|i: int|
        0 <= i < sends.len() && (#[trigger] sends[i]).to == addr by {
        assert(crate::chat::reaches(views, addr));
        let i = choose|i: int| 0 <= i < views.len() && (#[trigger] views[i]).to == addr;
        assert(sends[i].to == addr);
    }
}

/// What a response does is what is to be done, and nothing else.
pub proof fn law_carried_out(response: Response, view: ResponseView)
    requires
        crate::session::carries_out(response, view),
    ensures
        match view {
            ResponseView::Tell(text, to) => response matches Response::Tell(sends)
                && crate::chat::delivers(crate::chat::sends_view(sends@), text, to),
            ResponseView::Negotiate(negotiation, action) => response matches Response::Negotiate(
                n,
                a,
            ) && n@ == negotiation && a@ == action,
            ResponseView::SetRemote(description) => response == Response::SetRemote(description),
            ResponseView::AddCandidate(init) => response matches Response::AddCandidate(c) && c@
                == init,
            ResponseView::Abort => response is Abort,
            ResponseView::ReportTrack => response is ReportTrack,
            ResponseView::ReportType => response is ReportType,
            ResponseView::Nothing => response is Nothing || (response matches Response::Tell(sends)
                && sends@.len() == 0),
            ResponseView::ReportClose => response is ReportClose,
            ResponseView::ReportFailure => response is ReportFailure,
            ResponseView::Stop => response is Stop,
        },
        response is Nothing ==> view is Nothing,
{
}

/// A text that is read as a chat line is sent on, to each client but the one it
/// came from, once, with the type and the content that were read.
pub proof fn law_chat_line_sent_on(
    text: Seq<char>,
    members: Seq<(Seq<char>, JsonView)>,
    i: int,
    j: int,
    content: Seq<char>,
    from: Address,
    clients: Set<Address>,
    peers: Set<Address>,
    response: Response,
)
    requires
        crate::json::json_text(text) == Some(JsonView::Object(members)),
        forall|i: int, j: int|
            0 <= i < j < members.len() ==> (#[trigger] members[i]).0 != (#[trigger] members[j]).0,
        0 <= i < members.len(),
        0 <= j < members.len(),
        members[i] == ("msg_type"@, JsonView::Text("Chat"@)),
        members[j] == ("content"@, JsonView::Text(content)),
        crate::session::carries_out(
            response,
            crate::session::response_to(
                crate::session::dispatch_of(IncomingView::Text(text)),
                from,
                clients,
                peers,
            ),
        ),
    ensures
        response matches Response::Tell(sends) && {
            &&& forall|k: int|
                0 <= k < sends@.len() ==> {
                    &&& (#[trigger] sends@[k]).text@ == crate::text::object_text(
                        seq![
                            ("msg_type"@, ScalarView::Text("Chat"@)),
                            ("content"@, ScalarView::Text(content)),
                        ],
                    )
                    &&& clients.contains(sends@[k].to)
                    &&& sends@[k].to != from
                }
            &&& forall|k: int, l: int|
                0 <= k < l < sends@.len() ==> (#[trigger] sends@[k]).to != (
                #[trigger] sends@[l]).to
            &&& forall|addr: Address| #[trigger]
                clients.contains(addr) && addr != from ==> exists|k: int|
                    0 <= k < sends@.len() && (#[trigger] sends@[k]).to == addr
        },
{
    law_dispatched_by_type(text, members, i, "Chat"@);
    let message = ContentView { msg_type: "Chat"@, content };
    law_content_read_from_object(members, message);
    law_content_written(message);
    let to = clients.remove(from);
    if let Response::Tell(sends) = response {
        law_delivered(sends@, crate::message::content_text(message), to);
        assert forall|addr: Address| #[trigger]
            clients.contains(addr) && addr != from implies exists|k: int|
            0 <= k < sends@.len() && (#[trigger] sends@[k]).to == addr by {
            assert(to.contains(addr));
        }
    }
}

/// What is done about a chat line, whoever and whatever it says: the line that
/// was read goes to all clients but its sender; what is no line goes to nobody.
pub proof fn law_response_to_chat(
    json: JsonView,
    addr: Address,
    clients: Set<Address>,
    peers: Set<Address>,
)
    ensures
        ({
            let response = crate::session::response_to(
                DispatchView::Chat(json),
                addr,
                clients,
                peers,
            );
            match crate::message::content_of(json) {
                Some(message) => response matches ResponseView::Tell(text, to) && text
                    == crate::text::object_text(
                    seq![
                        ("msg_type"@, ScalarView::Text(message.msg_type)),
                        ("content"@, ScalarView::Text(message.content)),
                    ],
                ) && forall|a: Address| #[trigger] to.contains(a) <==> clients.contains(a) && a != addr,
                None => response is Nothing,
            }
        }),
{
}

/// What is done about an offer: a client that has a peer connection has the
/// offered description set on it, if it can be parsed; one that has none gets one.
pub proof fn law_response_to_offer(
    json: JsonView,
    addr: Address,
    clients: Set<Address>,
    peers: Set<Address>,
)
    ensures
        ({
            let response = crate::session::response_to(
                DispatchView::Offer(json),
                addr,
                clients,
                peers,
            );
            match crate::message::content_of(json) {
                Some(message) => response matches ResponseView::Negotiate(negotiation, action) && {
                    &&& negotiation.addr == addr
                    &&& negotiation.sdp == message.content
                    &&& if peers.contains(addr) {
                        match crate::negotiation::offer_description(message.content) {
                            Some(description) => negotiation.stage is SettingRemote && action
                                == OfferActionView::SetRemote(description),
                            None => negotiation.stage is Aborted && action is Abort,
                        }
                    } else {
                        negotiation.stage is CreatingPeer && action
                            == OfferActionView::CreatePeer(crate::settings::peer_settings())
                    }
                },
                None => response is Nothing,
            }
        }),
{
}

/// What is done about an answer: it is set on the client's peer connection, or
/// given up where it cannot be parsed; without a peer connection nothing is done.
pub proof fn law_response_to_answer(
    json: JsonView,
    addr: Address,
    clients: Set<Address>,
    peers: Set<Address>,
)
    ensures
        ({
            let response = crate::session::response_to(
                DispatchView::Answer(json),
                addr,
                clients,
                peers,
            );
            match crate::message::content_of(json) {
                Some(message) => if peers.contains(addr) {
                    match crate::negotiation::answer_description(message.content) {
                        Some(description) => response == ResponseView::SetRemote(description),
                        None => response is Abort,
                    }
                } else {
                    response is Nothing
                },
                None => response is Nothing,
            }
        }),
{
}

/// What is done about a candidate: with all that the message tells of it, it is
/// added to the client's peer connection; nothing is done only where there is no
/// peer connection or no message.
pub proof fn law_response_to_candidate(
    json: JsonView,
    addr: Address,
    clients: Set<Address>,
    peers: Set<Address>,
)
    ensures
        ({
            let response = crate::session::response_to(
                DispatchView::IceCandidate(json),
                addr,
                clients,
                peers,
            );
            if peers.contains(addr) && crate::message::candidate_of(json) is Some {
                let message = crate::message::candidate_of(json)->0;
                response matches ResponseView::AddCandidate(init) && {
                    &&& init.candidate == message.content
                    &&& init.sdp_mid == message.sdp_mid
                    &&& init.sdp_mline_index == message.sdp_mline_index
                    &&& init.username_fragment == message.username_fragment
                }
            } else {
                response is Nothing
            }
        }),
{
}

/// A candidate that arrives as a text with all of its fields is added to the
/// peer connection of the client that sent it, field by field.
pub proof fn law_candidate_added(
    text: Seq<char>,
    members: Seq<(Seq<char>, JsonView)>,
    i: int,
    message: IceCandidateView,
    addr: Address,
    clients: Set<Address>,
    peers: Set<Address>,
    response: Response,
)
    requires
        crate::json::json_text(text) == Some(JsonView::Object(members)),
        forall|i: int, j: int|
            0 <= i < j < members.len() ==> (#[trigger] members[i]).0 != (#[trigger] members[j]).0,
        0 <= i < members.len(),
        members[i] == ("msg_type"@, JsonView::Text("IceCandidate"@)),
        crate::message::candidate_of(JsonView::Object(members)) == Some(message),
        peers.contains(addr),
        crate::session::carries_out(
            response,
            crate::session::response_to(
                crate::session::dispatch_of(IncomingView::Text(text)),
                addr,
                clients,
                peers,
            ),
        ),
    ensures
        response matches Response::AddCandidate(init) && {
            &&& init.candidate@ == message.content
            &&& match message.sdp_mid {
                Some(s) => init.sdp_mid matches Some(t) && t@ == s,
                None => init.sdp_mid is None,
            }
            &&& init.sdp_mline_index == message.sdp_mline_index
            &&& match message.username_fragment {
                Some(s) => init.username_fragment matches Some(t) && t@ == s,
                None => init.username_fragment is None,
            }
        },
{
    law_dispatched_by_type(text, members, i, "IceCandidate"@);
    crate::laws::law_type_names(MessageType::IceCandidate, "IceCandidate"@);
    crate::laws::law_type_names(MessageType::Chat, "IceCandidate"@);
    crate::laws::law_type_names(MessageType::Offer, "IceCandidate"@);
    crate::laws::law_type_names(MessageType::Answer, "IceCandidate"@);
}

/// What is done about the rest.
pub proof fn law_response_to_the_rest(addr: Address, clients: Set<Address>, peers: Set<Address>)
    ensures
        crate::session::response_to(DispatchView::NewVideoTrack, addr, clients, peers)
            is ReportTrack,
        crate::session::response_to(DispatchView::UnknownType, addr, clients, peers) is ReportType,
        crate::session::response_to(DispatchView::Ignore, addr, clients, peers) is Nothing,
        crate::session::response_to(DispatchView::ReportClose, addr, clients, peers)
            is ReportClose,
        crate::session::response_to(DispatchView::ReportFailure, addr, clients, peers)
            is ReportFailure,
        crate::session::response_to(DispatchView::Stop, addr, clients, peers) is Stop,
{
}

// ---------------------------------------------------------------------------
// Answering offers
// ---------------------------------------------------------------------------

/// What a negotiation that is under way does after a step that did not fail, and
/// where it gives up.
pub proof fn law_offer_goes_on(
    negotiation: NegotiationView,
    outcome: OutcomeView,
    described: Option<RTCSessionDescription>,
    connected: bool,
)
    requires
        !(outcome is Failed),
    ensures
        ({
            let (next, action) = negotiation.next(outcome, described, connected);
            &&& next.addr == negotiation.addr
            &&& next.sdp == negotiation.sdp
            &&& match negotiation.stage {
                Stage::CreatingPeer => next.stage is AddingTrack && action
                    == OfferActionView::AddTrack(crate::settings::video_settings()),
                Stage::AddingTrack => if connected {
                    next.stage is WatchingCandidates && action == OfferActionView::WatchCandidates(
                        negotiation.addr,
                    )
                } else {
                    next.stage is Aborted && action is Abort
                },
                Stage::WatchingCandidates => next.stage is StoringPeer && action
                    == OfferActionView::StorePeer(negotiation.addr),
                Stage::StoringPeer => next.stage is ForwardingTrack && action is ForwardTrack,
                Stage::ForwardingTrack => match described {
                    Some(description) => next.stage is SettingRemote && action
                        == OfferActionView::SetRemote(description),
                    None => next.stage is Aborted && action is Abort,
                },
                Stage::SettingRemote => next.stage is CreatingAnswer && action is CreateAnswer,
                Stage::CreatingAnswer => match outcome {
                    OutcomeView::Created(answer) => next.stage is SettingLocal && action
                        == OfferActionView::SetLocal(answer),
                    _ => next.stage is Aborted && action is Abort,
                },
                Stage::SettingLocal => next.stage is ReadingLocal && action is ReadLocal,
                Stage::ReadingLocal => match outcome {
                    OutcomeView::Described(sdp) if connected => {
                        &&& next.stage is Finished
                        &&& action == OfferActionView::Send(
                            OutgoingView {
                                to: negotiation.addr,
                                text: crate::text::object_text(
                                    seq![
                                        ("msg_type"@, ScalarView::Text("Answer"@)),
                                        ("content"@, ScalarView::Text(sdp)),
                                    ],
                                ),
                            },
                        )
                    },
                    _ => next.stage is Aborted && action is Abort,
                },
                _ => next.stage == negotiation.stage && action is Nothing,
            }
        }),
{
}

/// After a step that failed a negotiation under way gives up; one that is over
/// does nothing more.
pub proof fn law_offer_gives_up(
    negotiation: NegotiationView,
    described: Option<RTCSessionDescription>,
    connected: bool,
)
    ensures
        ({
            let (next, action) = negotiation.next(OutcomeView::Failed, described, connected);
            &&& next.addr == negotiation.addr
            &&& next.sdp == negotiation.sdp
            &&& if negotiation.stage is Finished || negotiation.stage is Aborted {
                next.stage == negotiation.stage && action is Nothing
            } else {
                next.stage is Aborted && action is Abort
            }
        }),
{
}

/// The one answer of a negotiation goes to the client that made the offer. Read
/// back, it is of the type of answers, and its content is the local description
/// that was read, character by character.
pub proof fn law_answer_holds_local_description(
    negotiation: NegotiationView,
    steps: Seq<StepView>,
    described: Option<RTCSessionDescription>,
    i: int,
    outgoing: OutgoingView,
    read: Option<JsonView>,
)
    requires
        0 <= i < steps.len(),
        crate::laws::offer_run(negotiation, steps, described)[i] == OfferActionView::Send(
            outgoing,
        ),
        crate::json::reads_objects(outgoing.text, read),
    ensures
        outgoing.to == negotiation.addr,
        steps[i].outcome matches OutcomeView::Described(sdp) && {
            &&& outgoing.text == crate::text::object_text(
                seq![
                    ("msg_type"@, ScalarView::Text("Answer"@)),
                    ("content"@, ScalarView::Text(sdp)),
                ],
            )
            &&& read matches Some(value) && crate::message::content_of(value) == Some(
                ContentView { msg_type: "Answer"@, content: sdp },
            )
        },
{
    crate::laws::law_answer_is_earned(negotiation, steps, described, i);
    let sdp = steps[i].outcome->Described_0;
    let message = ContentView { msg_type: "Answer"@, content: sdp };
    law_content_written(message);
    crate::laws::lemma_content_names(message);
    crate::laws::law_content_read_back(read->0, message);
}

/// An offer to a client: what is done after each step, and where it is given up.
pub proof fn law_own_offer_goes_on(stage: OfferStage, outcome: OutcomeView)
    ensures
        ({
            let (next, action) = stage.next(outcome);
            if stage is Finished || stage is Aborted {
                next == stage && action is Nothing
            } else {
                match (stage, outcome) {
                    (OfferStage::CreatingOffer, OutcomeView::Created(offer)) => next
                        is SettingLocal && action == OwnOfferActionView::SetLocal(offer),
                    (OfferStage::SettingLocal, _) if !(outcome is Failed) => next is ReadingLocal
                        && action is ReadLocal,
                    (OfferStage::ReadingLocal, OutcomeView::Described(sdp)) => next is Finished
                        && action == OwnOfferActionView::Offer(
                        crate::text::object_text(
                            seq![
                                ("msg_type"@, ScalarView::Text("Offer"@)),
                                ("content"@, ScalarView::Text(sdp)),
                            ],
                        ),
                    ),
                    _ => next is Aborted && action is Abort,
                }
            }
        }),
{
}

// ---------------------------------------------------------------------------
// Candidates
// ---------------------------------------------------------------------------

/// For a candidate that can be described the client is sent one text: a candidate
/// message with the fields of the description. Read back, it tells of that very
/// description. For any other, and at the end, the client is sent nothing.
pub proof fn law_found_candidate_told(candidate: LocalCandidateView, read: Option<JsonView>)
    ensures
        match crate::negotiation::candidate_json(candidate) {
            Some(init) => {
                let texts = crate::negotiation::told(Some(candidate));
                &&& texts == seq![
                    crate::text::object_text(
                        seq![
                            ("msg_type"@, ScalarView::Text("IceCandidate"@)),
                            ("content"@, ScalarView::Text(init.candidate)),
                            (
                                "sdp_mid"@,
                                match init.sdp_mid {
                                    Some(s) => ScalarView::Text(s),
                                    None => ScalarView::Null,
                                },
                            ),
                            (
                                "sdp_mline_index"@,
                                match init.sdp_mline_index {
                                    Some(n) => ScalarView::Number(n as u64),
                                    None => ScalarView::Null,
                                },
                            ),
                            (
                                "username_fragment"@,
                                match init.username_fragment {
                                    Some(s) => ScalarView::Text(s),
                                    None => ScalarView::Null,
                                },
                            ),
                        ],
                    ),
                ]
                &&& crate::json::reads_objects(texts[0], read) ==> (read matches Some(value) && {
                    &&& crate::server::json_dispatch(value) == DispatchView::IceCandidate(value)
                    &&& crate::message::candidate_of(value) == Some(
                        IceCandidateView {
                            msg_type: "IceCandidate"@,
                            content: init.candidate,
                            sdp_mid: init.sdp_mid,
                            sdp_mline_index: init.sdp_mline_index,
                            username_fragment: init.username_fragment,
                        },
                    )
                    &&& crate::message::candidate_of(value) matches Some(message)
                        && crate::negotiation::told_by(message) == init
                })
            },
            None => crate::negotiation::told(Some(candidate)) == Seq::<Seq<char>>::empty(),
        },
        crate::negotiation::told(None) == Seq::<Seq<char>>::empty(),
{
    if let Some(init) = crate::negotiation::candidate_json(candidate) {
        let message = crate::negotiation::notice_of(init);
        law_candidate_written(message);
        let text = crate::negotiation::told(Some(candidate))[0];
        if crate::json::reads_objects(text, read) {
            crate::laws::lemma_candidate_names(message);
            crate::laws::law_candidate_read_back(read->0, message);
            crate::laws::law_candidate_told_back(read->0, init);
        }
    }
}

/// What a result has sent, and which candidates can be told.
pub proof fn law_results_of_telling(
    text: String,
    refused: Result<Option<String>, crate::negotiation::CandidateRefused>,
    found: Option<LocalCandidateView>,
)
    ensures
        crate::negotiation::sent_by(
            Ok::<Option<String>, crate::negotiation::CandidateRefused>(Some(text)),
        ) == seq![text@],
        !(refused matches Ok(Some(_))) ==> crate::negotiation::sent_by(refused) == Seq::<
            Seq<char>,
        >::empty(),
        crate::negotiation::describable(found) <==> (found matches Some(c)
            && crate::negotiation::candidate_json(c) is Some),
{
}

// ---------------------------------------------------------------------------
// Clients and peer connections
// ---------------------------------------------------------------------------

/// A client that comes through the handshake is there with its sender, whatever
/// was there before; one that does not changes nothing; and nobody else is touched.
pub proof fn law_client_taken_in<V>(
    clients: Map<Address, V>,
    addr: Address,
    tx: V,
    sender: Option<V>,
    other: Address,
)
    requires
        other != addr,
    ensures
        crate::server::taken_in(clients, addr, Some(tx)).dom().contains(addr),
        crate::server::taken_in(clients, addr, Some(tx))[addr] == tx,
        crate::server::taken_in(clients, addr, None) == clients,
        crate::server::taken_in(clients, addr, sender).dom().contains(other)
            <==> clients.dom().contains(other),
        clients.dom().contains(other) ==> crate::server::taken_in(clients, addr, sender)[other]
            == clients[other],
{
}

/// The step that keeps a peer connection keeps that very one for the client,
/// whatever was kept before; every other client is as it was. No other step
/// changes what is kept.
pub proof fn law_peer_kept<P>(
    peers: Map<Address, P>,
    of: Address,
    peer: P,
    other: Address,
    action: OfferActionView,
)
    requires
        other != of,
    ensures
        ({
            let after = crate::session::peers_after(peers, OfferActionView::StorePeer(of), peer);
            &&& after.dom().contains(of)
            &&& after[of] == peer
            &&& after.dom().contains(other) <==> peers.dom().contains(other)
            &&& peers.dom().contains(other) ==> after[other] == peers[other]
        }),
        !(action is StorePeer) ==> crate::session::peers_after(peers, action, peer) == peers,
{
}

/// An offer from a client that is connected and has no peer connection: once a
/// connection has been created, given its track and watched for candidates, it is
/// kept for the client, whatever else is kept and whatever comes after.
pub proof fn law_first_offer_keeps_peer<V, P>(addr: Address, world: World<V, P>, frame: Frame<P>)
    requires
        frame.offers(),
        world.clients.dom().contains(addr),
        !world.peers.dom().contains(addr),
        frame.outcomes.len() >= 3,
        !(frame.outcomes[0] is Failed),
        !(frame.outcomes[1] is Failed),
        !(frame.outcomes[2] is Failed),
    ensures
        frame.world_after(addr, world).peers == world.peers.insert(addr, frame.created),
        frame.world_after(addr, world).clients == world.clients,
{
    let actions = frame.steps(addr, world);
    if let ResponseView::Negotiate(negotiation, first) = frame.response(addr, world) {
        let described = crate::negotiation::offer_description(negotiation.sdp);
        let steps = frame.outcomes.map_values(
            |outcome: OutcomeView|
                StepView { outcome, connected: world.clients.dom().contains(addr) },
        );
        let run = crate::laws::offer_run(negotiation, steps, described);
        crate::laws::lemma_run_length(negotiation, steps, described);
        crate::laws::law_one_peer_connection_each(
            addr,
            negotiation.sdp,
            false,
            steps,
            described,
        );
        assert(actions == seq![first] + run);
        reveal_with_fuel(crate::laws::offer_run, 4);
        let rest = steps.drop_first();
        assert(rest[0] == steps[1]);
        assert(rest.drop_first()[0] == steps[2]);
        assert(run[2] == OfferActionView::StorePeer(addr));
        assert(actions[3] == run[2]);
        assert forall|i: int| 0 <= i < actions.len() implies ((
        #[trigger] actions[i]) matches OfferActionView::StorePeer(of) ==> of == addr) by {
            if i > 0 {
                assert(actions[i] == run[i - 1]);
            }
        }
        crate::session::lemma_kept(world.peers, actions, addr, frame.created);
    }
}

// ---------------------------------------------------------------------------
// What the mathematical values hold
// ---------------------------------------------------------------------------

/// An optional string is seen with its characters.
pub proof fn law_optional_text_seen(text: Option<String>)
    ensures
        match text {
            Some(s) => crate::message::text_view(text) == Some(s@),
            None => crate::message::text_view(text) is None,
        },
{
}

/// Messages are seen with all of their fields.
pub proof fn law_messages_seen(
    chat: ChatMessage,
    offer: OfferSignalMessage,
    answer: AnswerSignalMessage,
    candidate: IceCandidateSignalMessage,
    track: NewTrackSignalMessage,
)
    ensures
        chat@.msg_type == chat.msg_type@,
        chat@.content == chat.content@,
        offer@.msg_type == offer.msg_type@,
        offer@.content == offer.content@,
        answer@.msg_type == answer.msg_type@,
        answer@.content == answer.content@,
        candidate@.msg_type == candidate.msg_type@,
        candidate@.content == candidate.content@,
        candidate@.sdp_mid == crate::message::text_view(candidate.sdp_mid),
        candidate@.sdp_mline_index == candidate.sdp_mline_index,
        candidate@.username_fragment == crate::message::text_view(candidate.username_fragment),
        track@.msg_type == track.msg_type@,
        track@.ssrc == track.ssrc@,
        track@.mid == track.mid@,
        track@.payload_type == track.payload_type@,
{
}

/// Fields to be written are seen one by one, each with its name and its value.
pub proof fn law_fields_seen(fields: Seq<(&str, Scalar)>)
    ensures
        crate::text::fields_view(fields).len() == fields.len(),
        forall|i: int|
            0 <= i < fields.len() ==> (#[trigger] crate::text::fields_view(fields)[i]) == (
                fields[i].0@,
                match fields[i].1 {
                    Scalar::Null => ScalarView::Null,
                    Scalar::Text(s) => ScalarView::Text(s@),
                    Scalar::Number(n) => ScalarView::Number(n),
                },
            ),
{
}

/// A JSON value is seen with all that it holds.
pub proof fn law_json_seen(json: Json)
    ensures
        match json {
            Json::Null => json@ is Null,
            Json::Bool(b) => json@ == JsonView::Bool(b),
            Json::Number(n) => json@ == JsonView::Number(n),
            Json::Text(s) => json@ == JsonView::Text(s@),
            Json::Array(items) => json@ matches JsonView::Array(views) && views.len()
                == items@.len() && forall|i: int|
                0 <= i < views.len() ==> #[trigger] views[i] == items@[i]@,
            Json::Object(members) => json@ matches JsonView::Object(views) && views.len()
                == members@.len() && forall|i: int|
                0 <= i < views.len() ==> #[trigger] views[i] == (members@[i].0@, members@[i].1@),
        },
{
}

/// Texts to be sent are seen one by one, each with its receiver and its characters.
pub proof fn law_sends_seen(sends: Seq<Outgoing>)
    ensures
        crate::chat::sends_view(sends).len() == sends.len(),
        forall|i: int|
            0 <= i < sends.len() ==> (#[trigger] crate::chat::sends_view(sends)[i]).to
                == sends[i].to && crate::chat::sends_view(sends)[i].text == sends[i].text@,
{
}

/// What arrives, and what is to be done about it, are seen as they are.
pub proof fn law_frames_seen(incoming: Incoming, dispatch: Dispatch)
    ensures
        match incoming {
            Incoming::Text(text) => incoming@ == IncomingView::Text(text@),
            Incoming::Close => incoming@ is Close,
            Incoming::Other => incoming@ is Other,
            Incoming::Failed => incoming@ is Failed,
            Incoming::Ended => incoming@ is Ended,
        },
        match dispatch {
            Dispatch::Chat(json) => dispatch@ == DispatchView::Chat(json@),
            Dispatch::Offer(json) => dispatch@ == DispatchView::Offer(json@),
            Dispatch::Answer(json) => dispatch@ == DispatchView::Answer(json@),
            Dispatch::IceCandidate(json) => dispatch@ == DispatchView::IceCandidate(json@),
            Dispatch::NewVideoTrack => dispatch@ is NewVideoTrack,
            Dispatch::UnknownType => dispatch@ is UnknownType,
            Dispatch::Ignore => dispatch@ is Ignore,
            Dispatch::ReportClose => dispatch@ is ReportClose,
            Dispatch::ReportFailure => dispatch@ is ReportFailure,
            Dispatch::Stop => dispatch@ is Stop,
        },
{
}

/// A negotiation, what came of its steps, and its next step are seen as they are.
pub proof fn law_negotiation_seen(
    negotiation: Negotiation,
    outcome: Outcome,
    action: OfferAction,
    own: OwnOfferAction,
)
    ensures
        negotiation@.addr == negotiation.addr,
        negotiation@.sdp == negotiation.sdp@,
        negotiation@.stage == negotiation.stage,
        crate::negotiation::step_view((negotiation, action)) == (negotiation@, action@),
        match outcome {
            Outcome::Done => outcome@ is Done,
            Outcome::Created(description) => outcome@ == OutcomeView::Created(description),
            Outcome::Described(sdp) => outcome@ == OutcomeView::Described(sdp@),
            Outcome::Failed => outcome@ is Failed,
        },
        match action {
            OfferAction::CreatePeer(settings) => action@ == OfferActionView::CreatePeer(settings@),
            OfferAction::AddTrack(track) => action@ == OfferActionView::AddTrack(track@),
            OfferAction::WatchCandidates(addr) => action@ == OfferActionView::WatchCandidates(addr),
            OfferAction::StorePeer(addr) => action@ == OfferActionView::StorePeer(addr),
            OfferAction::ForwardTrack => action@ is ForwardTrack,
            OfferAction::SetRemote(description) => action@ == OfferActionView::SetRemote(
                description,
            ),
            OfferAction::CreateAnswer => action@ is CreateAnswer,
            OfferAction::SetLocal(answer) => action@ == OfferActionView::SetLocal(answer),
            OfferAction::ReadLocal => action@ is ReadLocal,
            OfferAction::Send(outgoing) => action@ matches OfferActionView::Send(view) && view.to
                == outgoing.to && view.text == outgoing.text@,
            OfferAction::Abort => action@ is Abort,
            OfferAction::Nothing => action@ is Nothing,
        },
        match own {
            OwnOfferAction::CreateOffer => own@ is CreateOffer,
            OwnOfferAction::SetLocal(offer) => own@ == OwnOfferActionView::SetLocal(offer),
            OwnOfferAction::ReadLocal => own@ is ReadLocal,
            OwnOfferAction::Offer(text) => own@ == OwnOfferActionView::Offer(text@),
            OwnOfferAction::Abort => own@ is Abort,
            OwnOfferAction::Nothing => own@ is Nothing,
        },
{
}

/// A candidate is seen with all of its fields, and a message tells of it with all
/// of them.
pub proof fn law_candidates_seen(init: CandidateInit, message: IceCandidateView)
    ensures
        init@.candidate == init.candidate@,
        init@.sdp_mid == crate::message::text_view(init.sdp_mid),
        init@.sdp_mline_index == init.sdp_mline_index,
        init@.username_fragment == crate::message::text_view(init.username_fragment),
        crate::negotiation::told_by(message) == (CandidateInitView {
            candidate: message.content,
            sdp_mid: message.sdp_mid,
            sdp_mline_index: message.sdp_mline_index,
            username_fragment: message.username_fragment,
        }),
        crate::negotiation::notice_of(init@) == (IceCandidateView {
            msg_type: "IceCandidate"@,
            content: init@.candidate,
            sdp_mid: init@.sdp_mid,
            sdp_mline_index: init@.sdp_mline_index,
            username_fragment: init@.username_fragment,
        }),
{
}

} // verus!
