//! No two different messages have one text.

use vstd::prelude::*;

use crate::message::{ContentView, IceCandidateView, NewTrackView};
use crate::text::ScalarView;

verus! {

/// Two continued texts that agree, and whose parts are equally long, agree part by part.
proof fn lemma_split(a: Seq<char>, x: Seq<char>, b: Seq<char>, y: Seq<char>)
    requires
        a + x == b + y,
        a.len() == b.len(),
    ensures
        a == b,
        x == y,
{
    assert(a =~= (a + x).take(a.len() as int));
    assert(b =~= (b + y).take(b.len() as int));
    assert(x =~= (a + x).skip(a.len() as int));
    assert(y =~= (b + y).skip(b.len() as int));
}

proof fn lemma_digit(d: int, e: int)
    requires
        0 <= d < 16,
        0 <= e < 16,
        crate::text::digit(d) == crate::text::digit(e),
    ensures
        d == e,
{
}

/// What follows on an escaped character is told apart from the character.
proof fn lemma_escaped(c: char, x: Seq<char>, d: char, y: Seq<char>)
    requires
        crate::text::escaped(c) + x == crate::text::escaped(d) + y,
    ensures
        c == d,
        x == y,
{
    let s = crate::text::escaped(c);
    let t = crate::text::escaped(d);
    let whole = s + x;
    assert(whole == t + y);
    assert(whole[0] == s[0] && whole[0] == t[0]);
    if s.len() >= 2 {
        assert(whole[1] == s[1]);
    }
    if t.len() >= 2 {
        assert(whole[1] == t[1]);
    }
    assert(s.len() == t.len());
    lemma_split(s, x, t, y);
    if s.len() == 6 {
        let m = c as int;
        let n = d as int;
        assert(s[4] == t[4] && s[5] == t[5]);
        assert(s[4] == crate::text::digit(m / 16) && s[5] == crate::text::digit(m % 16));
        assert(t[4] == crate::text::digit(n / 16) && t[5] == crate::text::digit(n % 16));
        lemma_digit(m / 16, n / 16);
        lemma_digit(m % 16, n % 16);
        assert(m == n);
    } else if s.len() == 2 {
        assert(s[1] == t[1]);
    } else {
        assert(s[0] == t[0]);
    }
}

/// An escaped character does not begin with a double quote.
proof fn lemma_escaped_start(c: char)
    ensures
        crate::text::escaped(c).len() > 0,
        crate::text::escaped(c)[0] != '"',
{
}

/// What follows on an escaped text and its closing quote is told apart from the text.
proof fn lemma_escaped_text(a: Seq<char>, x: Seq<char>, b: Seq<char>, y: Seq<char>)
    requires
        crate::text::escaped_text(a) + seq!['"'] + x == crate::text::escaped_text(b) + seq!['"']
            + y,
    ensures
        a == b,
        x == y,
    decreases a.len(),
{
    let p = crate::text::escaped_text(a) + seq!['"'] + x;
    let q = crate::text::escaped_text(b) + seq!['"'] + y;
    if a.len() == 0 {
        assert(p[0] == '"');
        if b.len() > 0 {
            lemma_escaped_start(b[0]);
            assert(q[0] == crate::text::escaped(b[0])[0]);
        } else {
            assert(crate::text::escaped_text(a) =~= crate::text::escaped_text(b));
            lemma_split(crate::text::escaped_text(a) + seq!['"'], x, crate::text::escaped_text(b) + seq!['"'], y);
            assert(a =~= b);
        }
    } else if b.len() == 0 {
        assert(q[0] == '"');
        lemma_escaped_start(a[0]);
        assert(p[0] == crate::text::escaped(a[0])[0]);
    } else {
        let ax = crate::text::escaped_text(a.drop_first()) + seq!['"'] + x;
        let by = crate::text::escaped_text(b.drop_first()) + seq!['"'] + y;
        assert(p =~= crate::text::escaped(a[0]) + ax);
        assert(q =~= crate::text::escaped(b[0]) + by);
        lemma_escaped(a[0], ax, b[0], by);
        lemma_escaped_text(a.drop_first(), x, b.drop_first(), y);
        assert(a =~= seq![a[0]] + a.drop_first());
        assert(b =~= seq![b[0]] + b.drop_first());
    }
}

proof fn lemma_quoted(a: Seq<char>, x: Seq<char>, b: Seq<char>, y: Seq<char>)
    requires
        crate::text::quoted(a) + x == crate::text::quoted(b) + y,
    ensures
        a == b,
        x == y,
{
    let p = crate::text::escaped_text(a) + seq!['"'] + x;
    let q = crate::text::escaped_text(b) + seq!['"'] + y;
    assert(crate::text::quoted(a) + x =~= seq!['"'] + p);
    assert(crate::text::quoted(b) + y =~= seq!['"'] + q);
    lemma_split(seq!['"'], p, seq!['"'], q);
    lemma_escaped_text(a, x, b, y);
}

/// The character is a decimal digit.
spec fn is_digit(c: char) -> bool {
    '0' <= c <= '9'
}

proof fn lemma_decimal_digits(n: nat)
    ensures
        crate::text::decimal(n).len() > 0,
        forall|i: int|
            0 <= i < crate::text::decimal(n).len() ==> is_digit(
                #[trigger] crate::text::decimal(n)[i],
            ),
    decreases n,
{
    if n >= 10 {
        lemma_decimal_digits(n / 10);
    }
}

proof fn lemma_decimal_injective(m: nat, n: nat)
    requires
        crate::text::decimal(m) == crate::text::decimal(n),
    ensures
        m == n,
    decreases m,
{
    let s = crate::text::decimal(m);
    let t = crate::text::decimal(n);
    lemma_decimal_digits(m / 10);
    lemma_decimal_digits(n / 10);
    if m >= 10 && n >= 10 {
        assert(s.last() == crate::text::digit((m % 10) as int));
        assert(t.last() == crate::text::digit((n % 10) as int));
        lemma_digit((m % 10) as int, (n % 10) as int);
        assert(s.drop_last() =~= crate::text::decimal(m / 10));
        assert(t.drop_last() =~= crate::text::decimal(n / 10));
        lemma_decimal_injective(m / 10, n / 10);
    } else if m >= 10 {
        assert(s.len() >= 2 && t.len() == 1);
    } else if n >= 10 {
        assert(t.len() >= 2 && s.len() == 1);
    } else {
        assert(s[0] == crate::text::digit(m as int));
        assert(t[0] == crate::text::digit(n as int));
        lemma_digit(m as int, n as int);
    }
}

/// The text is continued by something other than a digit.
spec fn breaks(x: Seq<char>) -> bool {
    x.len() > 0 && !is_digit(x[0])
}

proof fn lemma_decimal(m: nat, x: Seq<char>, n: nat, y: Seq<char>)
    requires
        crate::text::decimal(m) + x == crate::text::decimal(n) + y,
        breaks(x),
        breaks(y),
    ensures
        m == n,
        x == y,
{
    let s = crate::text::decimal(m);
    let t = crate::text::decimal(n);
    let whole = s + x;
    lemma_decimal_digits(m);
    lemma_decimal_digits(n);
    assert(whole == t + y);
    assert(whole[s.len() as int] == x[0]);
    assert(whole[t.len() as int] == y[0]);
    if s.len() < t.len() {
        assert(whole[s.len() as int] == t[s.len() as int]);
    } else if t.len() < s.len() {
        assert(whole[t.len() as int] == s[t.len() as int]);
    }
    lemma_split(s, x, t, y);
    lemma_decimal_injective(m, n);
}

proof fn lemma_scalar_start(v: ScalarView)
    ensures
        crate::text::scalar_text(v).len() > 0,
        match v {
            ScalarView::Null => crate::text::scalar_text(v)[0] == 'n',
            ScalarView::Text(_) => crate::text::scalar_text(v)[0] == '"',
            ScalarView::Number(_) => is_digit(crate::text::scalar_text(v)[0]),
        },
{
    if let ScalarView::Number(n) = v {
        lemma_decimal_digits(n as nat);
    }
}

proof fn lemma_scalar(u: ScalarView, x: Seq<char>, v: ScalarView, y: Seq<char>)
    requires
        crate::text::scalar_text(u) + x == crate::text::scalar_text(v) + y,
        breaks(x),
        breaks(y),
    ensures
        u == v,
        x == y,
{
    let s = crate::text::scalar_text(u);
    let t = crate::text::scalar_text(v);
    lemma_scalar_start(u);
    lemma_scalar_start(v);
    assert((s + x)[0] == s[0] && (t + y)[0] == t[0]);
    match (u, v) {
        (ScalarView::Null, ScalarView::Null) => {
            lemma_split(s, x, t, y);
        },
        (ScalarView::Text(a), ScalarView::Text(b)) => {
            lemma_quoted(a, x, b, y);
        },
        (ScalarView::Number(m), ScalarView::Number(n)) => {
            lemma_decimal(m as nat, x, n as nat, y);
        },
        _ => {},
    }
}

/// A field text, and what follows on it, taken apart.
proof fn lemma_field(
    f: (Seq<char>, ScalarView),
    x: Seq<char>,
    g: (Seq<char>, ScalarView),
    y: Seq<char>,
)
    requires
        crate::text::field_text(f) + x == crate::text::field_text(g) + y,
        breaks(x),
        breaks(y),
    ensures
        f == g,
        x == y,
{
    let p = seq![':'] + crate::text::scalar_text(f.1) + x;
    let q = seq![':'] + crate::text::scalar_text(g.1) + y;
    assert(crate::text::field_text(f) + x =~= crate::text::quoted(f.0) + p);
    assert(crate::text::field_text(g) + y =~= crate::text::quoted(g.0) + q);
    lemma_quoted(f.0, p, g.0, q);
    let s = crate::text::scalar_text(f.1) + x;
    let t = crate::text::scalar_text(g.1) + y;
    assert(p =~= seq![':'] + s);
    assert(q =~= seq![':'] + t);
    lemma_split(seq![':'], s, seq![':'], t);
    lemma_scalar(f.1, x, g.1, y);
}

/// The text of some fields is their first, and what follows on it.
proof fn lemma_first_field(a: Seq<(Seq<char>, ScalarView)>) -> (rest: Seq<char>)
    requires
        a.len() > 0,
    ensures
        crate::text::fields_text(a) + seq!['}'] == crate::text::field_text(a[0]) + rest,
        a.len() == 1 ==> rest == seq!['}'],
        a.len() > 1 ==> rest == seq![','] + (crate::text::fields_text(a.drop_first()) + seq!['}']),
        breaks(rest),
{
    let tail = crate::text::fields_text(a.drop_first()) + seq!['}'];
    let rest = if a.len() == 1 {
        seq!['}']
    } else {
        seq![','] + tail
    };
    assert(crate::text::fields_text(a) + seq!['}'] =~= crate::text::field_text(a[0]) + rest);
    rest
}

proof fn lemma_fields(a: Seq<(Seq<char>, ScalarView)>, b: Seq<(Seq<char>, ScalarView)>)
    requires
        crate::text::fields_text(a) + seq!['}'] == crate::text::fields_text(b) + seq!['}'],
    ensures
        a == b,
    decreases a.len(),
{
    let p = crate::text::fields_text(a) + seq!['}'];
    let q = crate::text::fields_text(b) + seq!['}'];
    if a.len() == 0 && b.len() == 0 {
        assert(a =~= b);
    } else if a.len() == 0 {
        let y = lemma_first_field(b);
        assert(p[0] == '}');
        assert(q[0] == '"');
    } else if b.len() == 0 {
        let x = lemma_first_field(a);
        assert(q[0] == '}');
        assert(p[0] == '"');
    } else {
        let x = lemma_first_field(a);
        let y = lemma_first_field(b);
        lemma_field(a[0], x, b[0], y);
        assert(x[0] == y[0]);
        if a.len() > 1 {
            let s = crate::text::fields_text(a.drop_first()) + seq!['}'];
            let t = crate::text::fields_text(b.drop_first()) + seq!['}'];
            lemma_split(seq![','], s, seq![','], t);
            lemma_fields(a.drop_first(), b.drop_first());
        } else {
            assert(a.drop_first() =~= b.drop_first());
        }
        assert(a =~= seq![a[0]] + a.drop_first());
        assert(b =~= seq![b[0]] + b.drop_first());
    }
}

/// Two objects with the same text have the same fields, in the same order.
pub proof fn law_object_texts_differ(
    a: Seq<(Seq<char>, ScalarView)>,
    b: Seq<(Seq<char>, ScalarView)>,
)
    requires
        crate::text::object_text(a) == crate::text::object_text(b),
    ensures
        a == b,
{
    let s = crate::text::fields_text(a) + seq!['}'];
    let t = crate::text::fields_text(b) + seq!['}'];
    assert(crate::text::object_text(a) =~= seq!['{'] + s);
    assert(crate::text::object_text(b) =~= seq!['{'] + t);
    lemma_split(seq!['{'], s, seq!['{'], t);
    lemma_fields(a, b);
}

/// Two chat lines, offers or answers with the same text are the same.
pub proof fn law_content_texts_differ(a: ContentView, b: ContentView)
    requires
        crate::message::content_text(a) == crate::message::content_text(b),
    ensures
        a == b,
{
    let f = crate::message::content_fields(a);
    let g = crate::message::content_fields(b);
    law_object_texts_differ(f, g);
    assert(f[0] == g[0] && f[1] == g[1]);
}

/// Two candidate messages with the same text are the same.
pub proof fn law_candidate_texts_differ(a: IceCandidateView, b: IceCandidateView)
    requires
        crate::message::candidate_text(a) == crate::message::candidate_text(b),
    ensures
        a == b,
{
    let f = crate::message::candidate_fields(a);
    let g = crate::message::candidate_fields(b);
    law_object_texts_differ(f, g);
    assert(f[0] == g[0] && f[1] == g[1] && f[2] == g[2] && f[3] == g[3] && f[4] == g[4]);
}

/// Two track notices with the same text are the same.
pub proof fn law_track_texts_differ(a: NewTrackView, b: NewTrackView)
    requires
        crate::message::track_text(a) == crate::message::track_text(b),
    ensures
        a == b,
{
    let f = crate::message::track_fields(a);
    let g = crate::message::track_fields(b);
    law_object_texts_differ(f, g);
    assert(f[0] == g[0] && f[1] == g[1] && f[2] == g[2] && f[3] == g[3]);
}

} // verus!
