//! JSON values as the server reads them.

use serde_json::Value;
use vstd::prelude::*;

use crate::text::ScalarView;

verus! {

/// A JSON value, seen as a mathematical value.
///
/// Of a number only this is kept: the number itself when it is a whole number
/// from 0 to `u64::MAX`, and `None` otherwise.
pub enum JsonView {
    Null,
    Bool(bool),
    Number(Option<u64>),
    Text(Seq<char>),
    Array(Seq<JsonView>),
    Object(Seq<(Seq<char>, JsonView)>),
}

/// A JSON value.
#[derive(Debug)]
pub enum Json {
    Null,
    Bool(bool),
    /// The number, when it is a whole number that fits in a `u64`.
    Number(Option<u64>),
    Text(String),
    Array(Vec<Json>),
    /// The members of an object, name and value.
    Object(Vec<(String, Json)>),
}

impl Json {
    pub open spec fn tree(self) -> JsonView
        decreases self,
    {
        match self {
            Json::Null => JsonView::Null,
            Json::Bool(b) => JsonView::Bool(b),
            Json::Number(n) => JsonView::Number(n),
            Json::Text(s) => JsonView::Text(s@),
            Json::Array(items) => JsonView::Array(
                Seq::new(
                    items@.len(),
                    |i: int|
                        if 0 <= i < items@.len() {
                            items@[i].tree()
                        } else {
                            JsonView::Null
                        },
                ),
            ),
            Json::Object(members) => JsonView::Object(
                Seq::new(
                    members@.len(),
                    |i: int|
                        if 0 <= i < members@.len() {
                            (members@[i].0@, members@[i].1.tree())
                        } else {
                            (Seq::<char>::empty(), JsonView::Null)
                        },
                ),
            ),
        }
    }
}

impl View for Json {
    type V = JsonView;

    open spec fn view(&self) -> JsonView {
        self.tree()
    }
}

/// The type of a parsed JSON value.
#[verifier::external_type_specification]
#[verifier::external_body]
pub struct ExValue(Value);

/// The error with which a text is refused as JSON.
#[verifier::external_type_specification]
#[verifier::external_body]
pub struct ExError(serde_json::Error);

/// What a `serde_json::Value` holds.
pub uninterp spec fn contents(value: Value) -> JsonView;

/// What `serde_json::from_str` reads from a text as a `Value`; `None` where it
/// refuses the text.
pub uninterp spec fn json_text(text: Seq<char>) -> Option<JsonView>;

/// No name occurs twice.
pub open spec fn distinct_names<T>(members: Seq<(Seq<char>, T)>) -> bool {
    forall|i: int, j: int|
        0 <= i < members.len() && 0 <= j < members.len() && i != j ==> #[trigger] members[i].0
            != #[trigger] members[j].0
}

/// The value of the member with the given name: the first, should there be several.
pub open spec fn member(members: Seq<(Seq<char>, JsonView)>, name: Seq<char>) -> Option<JsonView>
    decreases members.len(),
{
    if members.len() == 0 {
        None
    } else if members[0].0 == name {
        Some(members[0].1)
    } else {
        member(members.drop_first(), name)
    }
}

impl JsonView {
    /// No object in the value has two members of one name.
    pub open spec fn well_formed(self) -> bool
        decreases self,
    {
        match self {
            JsonView::Array(items) => forall|i: int|
                0 <= i < items.len() ==> (#[trigger] items[i]).well_formed(),
            JsonView::Object(members) => {
                &&& distinct_names(members)
                &&& forall|i: int| 0 <= i < members.len() ==> (#[trigger] members[i]).1.well_formed()
            },
            _ => true,
        }
    }

    /// The value of the member with the given name; nothing unless the value is
    /// an object that has one.
    pub open spec fn get(self, name: Seq<char>) -> Option<JsonView> {
        match self {
            JsonView::Object(members) => member(members, name),
            _ => None,
        }
    }
}

/// The JSON value that a field value is written as.
pub open spec fn scalar_json(value: ScalarView) -> JsonView {
    match value {
        ScalarView::Null => JsonView::Null,
        ScalarView::Text(s) => JsonView::Text(s),
        ScalarView::Number(n) => JsonView::Number(Some(n)),
    }
}

/// The members that fields are written as.
pub open spec fn fields_json(fields: Seq<(Seq<char>, ScalarView)>) -> Seq<(Seq<char>, JsonView)> {
    fields.map_values(|f: (Seq<char>, ScalarView)| (f.0, scalar_json(f.1)))
}

/// The value is an object with exactly the given fields, in some order.
pub open spec fn holds_fields(value: JsonView, fields: Seq<(Seq<char>, ScalarView)>) -> bool {
    value matches JsonView::Object(members) && {
        &&& members.len() == fields.len()
        &&& forall|name: Seq<char>| #[trigger]
            member(members, name) == member(fields_json(fields), name)
    }
}

/// If the text is a compact object text with distinct names, then what is read
/// from it is an object with just those fields.
pub open spec fn reads_objects(text: Seq<char>, read: Option<JsonView>) -> bool {
    forall|fields: Seq<(Seq<char>, ScalarView)>|
        distinct_names(fields) && text == #[trigger] crate::text::object_text(fields) ==> (
        read matches Some(value) && holds_fields(value, fields))
}

/// What a parse came to: the value read, or nothing.
spec fn parsed_tree(parsed: Result<Value, serde_json::Error>) -> Option<JsonView> {
    match parsed {
        Ok(value) => Some(contents(value)),
        Err(_) => None,
    }
}

/// One level of a JSON value.
enum Node {
    Null,
    Bool(bool),
    Number(Option<u64>),
    Text(String),
    Array(Vec<Value>),
    Object(Vec<(String, Value)>),
}

impl Node {
    spec fn tree(self) -> JsonView {
        match self {
            Node::Null => JsonView::Null,
            Node::Bool(b) => JsonView::Bool(b),
            Node::Number(n) => JsonView::Number(n),
            Node::Text(s) => JsonView::Text(s@),
            Node::Array(items) => JsonView::Array(items@.map_values(|v: Value| contents(v))),
            Node::Object(members) => JsonView::Object(
                members@.map_values(|m: (String, Value)| (m.0@, contents(m.1))),
            ),
        }
    }
}

/// `serde_json::from_str` into a `serde_json::Value`.
///
/// What it reads, or that it refuses, depends on the text alone. A compact
/// object text with distinct names is read, as an object with just those
/// members; in which order the object keeps them is left open.
#[verifier::external_body]
fn parse_value(text: &str) -> (parsed: Result<Value, serde_json::Error>)
    ensures
        parsed_tree(parsed) == json_text(text@),
        reads_objects(text@, parsed_tree(parsed)),
{
    serde_json::from_str::<Value>(text)
}

/// Takes a `serde_json::Value` apart, one level deep: its variant, and what the
/// variant holds. A number is handed over by `serde_json::Number::as_u64`; the
/// members of a `serde_json::Map` as a list, in which no name occurs twice.
#[verifier::external_body]
fn open_value(value: Value) -> (node: Node)
    ensures
        node.tree() == contents(value),
        node.tree() matches JsonView::Object(members) ==> distinct_names(members),
{
    match value {
        Value::Null => Node::Null,
        Value::Bool(b) => Node::Bool(b),
        Value::Number(n) => Node::Number(n.as_u64()),
        Value::String(s) => Node::Text(s),
        Value::Array(items) => Node::Array(items),
        Value::Object(members) => Node::Object(members.into_iter().collect()),
    }
}

/// Copies a parsed value into a [`Json`].
fn to_json(value: Value) -> (json: Json)
    ensures
        json@ == contents(value),
        json@.well_formed(),
    decreases contents(value),
{
    let ghost whole = contents(value);
    match open_value(value) {
        Node::Null => Json::Null,
        Node::Bool(b) => Json::Bool(b),
        Node::Number(n) => Json::Number(n),
        Node::Text(s) => Json::Text(s),
        Node::Array(items) => {
            let ghost all = items@;
            let mut done: Vec<Json> = Vec::new();
            for item in it: items.into_iter()
                invariant
                    it.seq() == all,
                    whole == contents(value),
                    whole == JsonView::Array(all.map_values(|v: Value| contents(v))),
                    done@.len() == it.index(),
                    forall|i: int|
                        0 <= i < it.index() ==> (#[trigger] done@[i])@ == contents(all[i])
                            && done@[i]@.well_formed(),
            {
                proof {
                    assert(whole->Array_0[it.index()] == contents(item));
                    assert(decreases_to!(whole => whole->Array_0));
                    assert(decreases_to!(whole->Array_0 => whole->Array_0[it.index()]));
                }
                done.push(to_json(item));
            }
            let json = Json::Array(done);
            proof {
                assert(json@->Array_0 =~= whole->Array_0);
            }
            json
        },
        Node::Object(members) => {
            let ghost all = members@;
            let mut done: Vec<(String, Json)> = Vec::new();
            for entry in it: members.into_iter()
                invariant
                    it.seq() == all,
                    whole == contents(value),
                    whole == JsonView::Object(
                        all.map_values(|m: (String, Value)| (m.0@, contents(m.1))),
                    ),
                    done@.len() == it.index(),
                    forall|i: int|
                        0 <= i < it.index() ==> (#[trigger] done@[i]).0@ == all[i].0@
                            && done@[i].1@ == contents(all[i].1) && done@[i].1@.well_formed(),
            {
                proof {
                    assert(whole->Object_0[it.index()].1 == contents(entry.1));
                    assert(decreases_to!(whole => whole->Object_0));
                    assert(decreases_to!(whole->Object_0 => whole->Object_0[it.index()]));
                    assert(decreases_to!(
                        whole->Object_0[it.index()] => whole->Object_0[it.index()].1
                    ));
                }
                let (name, inner) = entry;
                done.push((name, to_json(inner)));
            }
            let json = Json::Object(done);
            proof {
                assert(json@->Object_0 =~= whole->Object_0);
            }
            json
        },
    }
}

/// Reads a text as JSON; `None` where the text is not JSON.
pub fn read_json(text: &str) -> (json: Option<Json>)
    ensures
        match json {
            Some(json) => json_text(text@) == Some(json@) && json@.well_formed(),
            None => json_text(text@) is None,
        },
        reads_objects(text@, json_text(text@)),
{
    match parse_value(text) {
        Ok(value) => Some(to_json(value)),
        Err(_) => None,
    }
}

impl Json {
    /// The value of the member with the given name; nothing unless the value is
    /// an object that has one.
    pub fn get(&self, name: &str) -> (value: Option<&Json>)
        ensures
            match value {
                Some(value) => self@.get(name@) == Some(value@),
                None => self@.get(name@) is None,
            },
    {
        match self {
            Json::Object(members) => {
                let wanted = name.to_owned();
                let ghost all = self@->Object_0;
                proof {
                    assert(all.skip(0) =~= all);
                }
                let mut i: usize = 0;
                while i < members.len()
                    invariant
                        i <= members.len(),
                        wanted@ == name@,
                        all == self@->Object_0,
                        *self == Json::Object(*members),
                        member(all, name@) == member(all.skip(i as int), name@),
                    decreases members.len() - i,
                {
                    proof {
                        assert(all.skip(i as int)[0] == all[i as int]);
                        assert(all.skip(i as int).drop_first() =~= all.skip(i + 1));
                    }
                    if members[i].0 == wanted {
                        return Some(&members[i].1);
                    }
                    i = i + 1;
                }
                None
            },
            _ => None,
        }
    }
}

} // verus!
