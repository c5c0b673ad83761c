//! The text of the JSON objects that the server sends.

use vstd::prelude::*;
use vstd::string::*;

verus! {

/// A field value that a sent object can hold.
#[derive(Debug)]
pub enum Scalar {
    Null,
    Text(String),
    Number(u64),
}

/// A field value, seen as a mathematical value.
pub enum ScalarView {
    Null,
    Text(Seq<char>),
    Number(u64),
}

impl View for Scalar {
    type V = ScalarView;

    open spec fn view(&self) -> ScalarView {
        match self {
            Scalar::Null => ScalarView::Null,
            Scalar::Text(s) => ScalarView::Text(s@),
            Scalar::Number(n) => ScalarView::Number(*n),
        }
    }
}

/// The character of a decimal or hexadecimal digit.
pub open spec fn digit(d: int) -> char {
    if d == 0 {
        '0'
    } else if d == 1 {
        '1'
    } else if d == 2 {
        '2'
    } else if d == 3 {
        '3'
    } else if d == 4 {
        '4'
    } else if d == 5 {
        '5'
    } else if d == 6 {
        '6'
    } else if d == 7 {
        '7'
    } else if d == 8 {
        '8'
    } else if d == 9 {
        '9'
    } else if d == 10 {
        'a'
    } else if d == 11 {
        'b'
    } else if d == 12 {
        'c'
    } else if d == 13 {
        'd'
    } else if d == 14 {
        'e'
    } else {
        'f'
    }
}

/// A number in decimal, without leading zeros.
pub open spec fn decimal(n: nat) -> Seq<char>
    decreases n,
{
    if n < 10 {
        seq![digit(n as int)]
    } else {
        decimal(n / 10).push(digit((n % 10) as int))
    }
}

/// A character as it stands between the quotes of a JSON string.
pub open spec fn escaped(c: char) -> Seq<char> {
    let code = c as int;
    if c == '"' || c == '\\' {
        seq!['\\', c]
    } else if code >= 0x20 {
        seq![c]
    } else if code == 0x08 {
        seq!['\\', 'b']
    } else if code == 0x09 {
        seq!['\\', 't']
    } else if code == 0x0a {
        seq!['\\', 'n']
    } else if code == 0x0c {
        seq!['\\', 'f']
    } else if code == 0x0d {
        seq!['\\', 'r']
    } else {
        seq!['\\', 'u', '0', '0', digit(code / 16), digit(code % 16)]
    }
}

/// The characters of a text, each escaped.
pub open spec fn escaped_text(text: Seq<char>) -> Seq<char>
    decreases text.len(),
{
    if text.len() == 0 {
        seq![]
    } else {
        escaped(text[0]) + escaped_text(text.drop_first())
    }
}

/// A text as a JSON string.
pub open spec fn quoted(text: Seq<char>) -> Seq<char> {
    seq!['"'] + escaped_text(text) + seq!['"']
}

/// A field value as JSON.
pub open spec fn scalar_text(value: ScalarView) -> Seq<char> {
    match value {
        ScalarView::Null => seq!['n', 'u', 'l', 'l'],
        ScalarView::Text(s) => quoted(s),
        ScalarView::Number(n) => decimal(n as nat),
    }
}

/// A field as JSON: its name, a colon and its value.
pub open spec fn field_text(field: (Seq<char>, ScalarView)) -> Seq<char> {
    quoted(field.0) + seq![':'] + scalar_text(field.1)
}

/// Fields as JSON, separated by commas.
pub open spec fn fields_text(fields: Seq<(Seq<char>, ScalarView)>) -> Seq<char>
    decreases fields.len(),
{
    if fields.len() == 0 {
        seq![]
    } else if fields.len() == 1 {
        field_text(fields[0])
    } else {
        field_text(fields[0]) + seq![','] + fields_text(fields.drop_first())
    }
}

/// An object as JSON, its fields in the order given and with no white space.
pub open spec fn object_text(fields: Seq<(Seq<char>, ScalarView)>) -> Seq<char> {
    seq!['{'] + fields_text(fields) + seq!['}']
}

/// The fields of an object, seen as mathematical values.
pub open spec fn fields_view(fields: Seq<(&str, Scalar)>) -> Seq<(Seq<char>, ScalarView)> {
    fields.map_values(|f: (&str, Scalar)| (f.0@, f.1@))
}

/// `serde_json::to_string` of a string slice. It always succeeds: the string is
/// put between double quotes, with a backslash before a double quote and before
/// a backslash, control characters as `\b`, `\t`, `\n`, `\f`, `\r` or `\u00`
/// and two lower-case hexadecimal digits, and every other character as it is.
#[verifier::external_body]
fn quote(text: &str) -> (json: String)
    ensures
        json@ == quoted(text@),
{
    serde_json::to_string(text).unwrap()
}

fn digit_text(d: u64) -> (text: &'static str)
    requires
        d < 10,
    ensures
        text@ == seq![digit(d as int)],
{
    proof {
        reveal_strlit("0");
        reveal_strlit("1");
        reveal_strlit("2");
        reveal_strlit("3");
        reveal_strlit("4");
        reveal_strlit("5");
        reveal_strlit("6");
        reveal_strlit("7");
        reveal_strlit("8");
        reveal_strlit("9");
    }
    if d == 0 {
        "0"
    } else if d == 1 {
        "1"
    } else if d == 2 {
        "2"
    } else if d == 3 {
        "3"
    } else if d == 4 {
        "4"
    } else if d == 5 {
        "5"
    } else if d == 6 {
        "6"
    } else if d == 7 {
        "7"
    } else if d == 8 {
        "8"
    } else {
        "9"
    }
}

/// Writes a number in decimal.
pub fn decimal_text(n: u64) -> (text: String)
    ensures
        text@ == decimal(n as nat),
    decreases n,
{
    if n < 10 {
        digit_text(n).to_owned()
    } else {
        let mut text = decimal_text(n / 10);
        text.append(digit_text(n % 10));
        proof {
            assert(text@ =~= decimal(n as nat));
        }
        text
    }
}

/// Writes a field value as JSON.
fn write_scalar(value: &Scalar) -> (json: String)
    ensures
        json@ == scalar_text(value@),
{
    match value {
        Scalar::Null => {
            proof {
                reveal_strlit("null");
                assert("null"@ =~= seq!['n', 'u', 'l', 'l']);
            }
            "null".to_owned()
        },
        Scalar::Text(s) => quote(s.as_str()),
        Scalar::Number(n) => decimal_text(*n),
    }
}

/// Writes an object as JSON.
pub fn write_object(fields: &Vec<(&str, Scalar)>) -> (json: String)
    ensures
        json@ == object_text(fields_view(fields@)),
{
    let ghost all = fields_view(fields@);
    let mut json = "{".to_owned();
    let mut i: usize = 0;
    proof {
        reveal_strlit("{");
        reveal_strlit("}");
        reveal_strlit(":");
        reveal_strlit(",");
        assert(all.skip(0) =~= all);
    }
    while i < fields.len()
        invariant
            i <= fields.len(),
            all == fields_view(fields@),
            ":"@ == seq![':'],
            ","@ == seq![','],
            json@ + fields_text(all.skip(i as int)) == seq!['{'] + fields_text(all),
        decreases fields.len() - i,
    {
        let ghost before = json@;
        let ghost rest = all.skip(i as int);
        let field = &fields[i];
        json.append(quote(field.0).as_str());
        json.append(":");
        json.append(write_scalar(&field.1).as_str());
        if i + 1 < fields.len() {
            json.append(",");
        }
        i = i + 1;
        proof {
            assert(rest[0] == all[i - 1]);
            assert(all.skip(i as int) =~= rest.drop_first());
            assert(fields_text(Seq::<(Seq<char>, ScalarView)>::empty()).len() == 0);
            assert(json@ + fields_text(all.skip(i as int)) =~= before + fields_text(rest));
        }
    }
    proof {
        assert(fields_text(all.skip(i as int)) =~= seq![]);
        assert(json@ =~= seq!['{'] + fields_text(all));
    }
    json.append("}");
    json
}

} // verus!
