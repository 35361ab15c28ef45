//! A plain model of JSON values, and the recursive LaTeX escaping of their
//! string leaves.
//!
//! Numbers are carried as their JSON text, so that no value of the tree is
//! outside what the verifier can reason about; the escaping transforms
//! never look inside them.

use vstd::prelude::*;
use crate::latex::{escape_tex_chars, unescape_tex_chars, escape_tex_string, unescape_tex_string,
    lemma_unescape_escape};

verus! {

broadcast use vstd::std_specs::vec::axiom_vec_index_decreases, vstd::std_specs::vec::axiom_vec_decreases_to_view;

/// A JSON value with plain contents. `Number` holds the number's JSON text.
#[derive(Debug, PartialEq, Eq)]
pub enum JsonValue {
    Null,
    Bool(bool),
    Number(String),
    String(String),
    Array(Vec<JsonValue>),
    Object(Vec<(String, JsonValue)>),
}

/// Structural equality of two JSON values, compared by contents.
pub open spec fn json_eq(a: JsonValue, b: JsonValue) -> bool
    decreases a,
{
    match (a, b) {
        (JsonValue::Null, JsonValue::Null) => true,
        (JsonValue::Bool(x), JsonValue::Bool(y)) => x == y,
        (JsonValue::Number(x), JsonValue::Number(y)) => x@ == y@,
        (JsonValue::String(x), JsonValue::String(y)) => x@ == y@,
        (JsonValue::Array(x), JsonValue::Array(y)) => {
            &&& x.len() == y.len()
            &&& forall|i: int| 0 <= i < x.len() ==> json_eq(#[trigger] x@[i], y@[i])
        },
        (JsonValue::Object(x), JsonValue::Object(y)) => {
            &&& x.len() == y.len()
            &&& forall|i: int|
                0 <= i < x.len() ==> (#[trigger] x@[i]).0@ == y@[i].0@ && json_eq(x@[i].1, y@[i].1)
        },
        _ => false,
    }
}

/// `r` is `v` with every string leaf LaTeX-escaped and everything else --
/// the kind of each node, the order and length of arrays, the keys of
/// objects, and all non-string leaves -- unchanged.
pub open spec fn is_escaped_of(r: JsonValue, v: JsonValue) -> bool
    decreases v,
{
    match (r, v) {
        (JsonValue::Null, JsonValue::Null) => true,
        (JsonValue::Bool(x), JsonValue::Bool(y)) => x == y,
        (JsonValue::Number(x), JsonValue::Number(y)) => x@ == y@,
        (JsonValue::String(x), JsonValue::String(y)) => x@ == escape_tex_chars(y@),
        (JsonValue::Array(x), JsonValue::Array(y)) => {
            &&& x.len() == y.len()
            &&& forall|i: int| 0 <= i < y.len() ==> is_escaped_of(#[trigger] x@[i], y@[i])
        },
        (JsonValue::Object(x), JsonValue::Object(y)) => {
            &&& x.len() == y.len()
            &&& forall|i: int|
                0 <= i < y.len() ==> (#[trigger] x@[i]).0@ == y@[i].0@ && is_escaped_of(
                    x@[i].1,
                    y@[i].1,
                )
        },
        _ => false,
    }
}

/// `r` is `v` with every string leaf LaTeX-unescaped, and everything else
/// unchanged.
pub open spec fn is_unescaped_of(r: JsonValue, v: JsonValue) -> bool
    decreases v,
{
    match (r, v) {
        (JsonValue::Null, JsonValue::Null) => true,
        (JsonValue::Bool(x), JsonValue::Bool(y)) => x == y,
        (JsonValue::Number(x), JsonValue::Number(y)) => x@ == y@,
        (JsonValue::String(x), JsonValue::String(y)) => x@ == unescape_tex_chars(y@),
        (JsonValue::Array(x), JsonValue::Array(y)) => {
            &&& x.len() == y.len()
            &&& forall|i: int| 0 <= i < y.len() ==> is_unescaped_of(#[trigger] x@[i], y@[i])
        },
        (JsonValue::Object(x), JsonValue::Object(y)) => {
            &&& x.len() == y.len()
            &&& forall|i: int|
                0 <= i < y.len() ==> (#[trigger] x@[i]).0@ == y@[i].0@ && is_unescaped_of(
                    x@[i].1,
                    y@[i].1,
                )
        },
        _ => false,
    }
}

/// Walks a JSON value and escapes each string leaf; objects and arrays are
/// walked element-wise, all other leaves pass through.
#[verifier::loop_isolation(false)]
pub fn escape_tex(v: &JsonValue) -> (r: JsonValue)
    ensures
        is_escaped_of(r, *v),
    decreases *v,
{
    match v {
        JsonValue::Null => JsonValue::Null,
        JsonValue::Bool(b) => JsonValue::Bool(*b),
        JsonValue::Number(n) => JsonValue::Number(n.clone()),
        JsonValue::String(s) => JsonValue::String(escape_tex_string(s.as_str())),
        JsonValue::Array(items) => {
            let mut out: Vec<JsonValue> = Vec::new();
            let mut i: usize = 0;
            while i < items.len()
                invariant
                    0 <= i <= items.len(),
                    out.len() == i,
                    forall|j: int| 0 <= j < i ==> is_escaped_of(#[trigger] out@[j], items@[j]),
                decreases items.len() - i,
            {
                proof {
                    assert(decreases_to!(*v => *items));
                    assert(decreases_to!(*items => items@[i as int]));
                }
                let e = escape_tex(&items[i]);
                out.push(e);
                i += 1;
            }
            JsonValue::Array(out)
        },
        JsonValue::Object(fields) => {
            let mut out: Vec<(String, JsonValue)> = Vec::new();
            let mut i: usize = 0;
            while i < fields.len()
                invariant
                    0 <= i <= fields.len(),
                    out.len() == i,
                    forall|j: int|
                        0 <= j < i ==> (#[trigger] out@[j]).0@ == fields@[j].0@ && is_escaped_of(
                            out@[j].1,
                            fields@[j].1,
                        ),
                decreases fields.len() - i,
            {
                proof {
                    assert(decreases_to!(*v => *fields));
                    assert(decreases_to!(*fields => fields@[i as int]));
                    assert(decreases_to!(fields@[i as int] => fields@[i as int].1));
                }
                let key = fields[i].0.clone();
                let e = escape_tex(&fields[i].1);
                out.push((key, e));
                i += 1;
            }
            JsonValue::Object(out)
        },
    }
}

/// Walks a JSON value and unescapes each string leaf; the inverse walk of
/// [`escape_tex`].
#[verifier::loop_isolation(false)]
pub fn unescape_tex(v: &JsonValue) -> (r: JsonValue)
    ensures
        is_unescaped_of(r, *v),
    decreases *v,
{
    match v {
        JsonValue::Null => JsonValue::Null,
        JsonValue::Bool(b) => JsonValue::Bool(*b),
        JsonValue::Number(n) => JsonValue::Number(n.clone()),
        JsonValue::String(s) => JsonValue::String(unescape_tex_string(s.as_str())),
        JsonValue::Array(items) => {
            let mut out: Vec<JsonValue> = Vec::new();
            let mut i: usize = 0;
            while i < items.len()
                invariant
                    0 <= i <= items.len(),
                    out.len() == i,
                    forall|j: int| 0 <= j < i ==> is_unescaped_of(#[trigger] out@[j], items@[j]),
                decreases items.len() - i,
            {
                proof {
                    assert(decreases_to!(*v => *items));
                    assert(decreases_to!(*items => items@[i as int]));
                }
                let e = unescape_tex(&items[i]);
                out.push(e);
                i += 1;
            }
            JsonValue::Array(out)
        },
        JsonValue::Object(fields) => {
            let mut out: Vec<(String, JsonValue)> = Vec::new();
            let mut i: usize = 0;
            while i < fields.len()
                invariant
                    0 <= i <= fields.len(),
                    out.len() == i,
                    forall|j: int|
                        0 <= j < i ==> (#[trigger] out@[j]).0@ == fields@[j].0@ && is_unescaped_of(
                            out@[j].1,
                            fields@[j].1,
                        ),
                decreases fields.len() - i,
            {
                proof {
                    assert(decreases_to!(*v => *fields));
                    assert(decreases_to!(*fields => fields@[i as int]));
                    assert(decreases_to!(fields@[i as int] => fields@[i as int].1));
                }
                let key = fields[i].0.clone();
                let e = unescape_tex(&fields[i].1);
                out.push((key, e));
                i += 1;
            }
            JsonValue::Object(out)
        },
    }
}

/// Copies a JSON value, contents and all.
#[verifier::loop_isolation(false)]
pub fn clone_json(v: &JsonValue) -> (r: JsonValue)
    ensures
        json_eq(r, *v),
    decreases *v,
{
    match v {
        JsonValue::Null => JsonValue::Null,
        JsonValue::Bool(b) => JsonValue::Bool(*b),
        JsonValue::Number(n) => JsonValue::Number(n.clone()),
        JsonValue::String(s) => JsonValue::String(s.clone()),
        JsonValue::Array(items) => {
            let mut out: Vec<JsonValue> = Vec::new();
            let mut i: usize = 0;
            while i < items.len()
                invariant
                    0 <= i <= items.len(),
                    out.len() == i,
                    forall|j: int| 0 <= j < i ==> json_eq(#[trigger] out@[j], items@[j]),
                decreases items.len() - i,
            {
                proof {
                    assert(decreases_to!(*v => *items));
                    assert(decreases_to!(*items => items@[i as int]));
                }
                let e = clone_json(&items[i]);
                out.push(e);
                i += 1;
            }
            JsonValue::Array(out)
        },
        JsonValue::Object(fields) => {
            let mut out: Vec<(String, JsonValue)> = Vec::new();
            let mut i: usize = 0;
            while i < fields.len()
                invariant
                    0 <= i <= fields.len(),
                    out.len() == i,
                    forall|j: int|
                        0 <= j < i ==> (#[trigger] out@[j]).0@ == fields@[j].0@ && json_eq(
                            out@[j].1,
                            fields@[j].1,
                        ),
                decreases fields.len() - i,
            {
                proof {
                    assert(decreases_to!(*v => *fields));
                    assert(decreases_to!(*fields => fields@[i as int]));
                    assert(decreases_to!(fields@[i as int] => fields@[i as int].1));
                }
                let key = fields[i].0.clone();
                let e = clone_json(&fields[i].1);
                out.push((key, e));
                i += 1;
            }
            JsonValue::Object(out)
        },
    }
}

/// Whether two JSON values have the same shape: the same kind of node at
/// every position, with arrays and objects of the same length and objects
/// with the same keys; only string leaves may differ.
pub open spec fn same_structure(a: JsonValue, b: JsonValue) -> bool
    decreases a,
{
    match (a, b) {
        (JsonValue::Null, JsonValue::Null) => true,
        (JsonValue::Bool(x), JsonValue::Bool(y)) => x == y,
        (JsonValue::Number(x), JsonValue::Number(y)) => x@ == y@,
        (JsonValue::String(_), JsonValue::String(_)) => true,
        (JsonValue::Array(x), JsonValue::Array(y)) => {
            &&& x.len() == y.len()
            &&& forall|i: int| 0 <= i < x.len() ==> same_structure(#[trigger] x@[i], y@[i])
        },
        (JsonValue::Object(x), JsonValue::Object(y)) => {
            &&& x.len() == y.len()
            &&& forall|i: int|
                0 <= i < x.len() ==> (#[trigger] x@[i]).0@ == y@[i].0@ && same_structure(
                    x@[i].1,
                    y@[i].1,
                )
        },
        _ => false,
    }
}

/// Escaping preserves the JSON structure of a value: the escaped tree has
/// the same kind of node at every position, and only string leaves change.
pub proof fn lemma_escape_preserves_structure(r: JsonValue, v: JsonValue)
    requires
        is_escaped_of(r, v),
    ensures
        same_structure(r, v),
    decreases v,
{
    match (r, v) {
        (JsonValue::Array(x), JsonValue::Array(y)) => {
            assert forall|i: int| 0 <= i < x.len() implies same_structure(
                #[trigger] x@[i],
                y@[i],
            ) by {
                lemma_escape_preserves_structure(x@[i], y@[i]);
            }
        },
        (JsonValue::Object(x), JsonValue::Object(y)) => {
            assert forall|i: int| 0 <= i < x.len() implies (#[trigger] x@[i]).0@ == y@[i].0@
                && same_structure(x@[i].1, y@[i].1) by {
                lemma_escape_preserves_structure(x@[i].1, y@[i].1);
            }
        },
        _ => {},
    }
}

/// The lower-case hexadecimal digit of a value below sixteen.
pub open spec fn hex_char_of(n: u32) -> char {
    if n == 0 {
        '0'
    } else if n == 1 {
        '1'
    } else if n == 2 {
        '2'
    } else if n == 3 {
        '3'
    } else if n == 4 {
        '4'
    } else if n == 5 {
        '5'
    } else if n == 6 {
        '6'
    } else if n == 7 {
        '7'
    } else if n == 8 {
        '8'
    } else if n == 9 {
        '9'
    } else if n == 10 {
        'a'
    } else if n == 11 {
        'b'
    } else if n == 12 {
        'c'
    } else if n == 13 {
        'd'
    } else if n == 14 {
        'e'
    } else {
        'f'
    }
}

/// How one character appears inside a JSON string literal: quote and
/// backslash gain a backslash, the named control characters take their
/// short escapes, the remaining control characters take `\u00` and two
/// lower-case hex digits, and every other character stands by itself.
pub open spec fn json_escaped_char(c: char) -> Seq<char> {
    if c == '"' {
        seq!['\\', '"']
    } else if c == '\\' {
        seq!['\\', '\\']
    } else if c == '\u{8}' {
        seq!['\\', 'b']
    } else if c == '\t' {
        seq!['\\', 't']
    } else if c == '\n' {
        seq!['\\', 'n']
    } else if c == '\u{c}' {
        seq!['\\', 'f']
    } else if c == '\r' {
        seq!['\\', 'r']
    } else if (c as u32) < 32 {
        seq!['\\', 'u', '0', '0', hex_char_of((c as u32) / 16), hex_char_of((c as u32) % 16)]
    } else {
        seq![c]
    }
}

/// The body of a JSON string literal holding the characters of `s`.
pub open spec fn json_escaped_chars(s: Seq<char>) -> Seq<char>
    decreases s.len(),
{
    if s.len() == 0 {
        Seq::empty()
    } else {
        json_escaped_char(s[0]) + json_escaped_chars(s.drop_first())
    }
}

/// A JSON string literal holding the characters of `s`, quotes included.
pub open spec fn json_quoted(s: Seq<char>) -> Seq<char> {
    seq!['"'] + json_escaped_chars(s) + seq!['"']
}

/// JSON escaping distributes over appending one character at the end.
proof fn lemma_json_escape_push(s: Seq<char>, c: char)
    ensures
        json_escaped_chars(s.push(c)) == json_escaped_chars(s) + json_escaped_char(c),
    decreases s.len(),
{
    if s.len() == 0 {
        assert(s.push(c)[0] == c);
        assert(s.push(c).drop_first() =~= Seq::<char>::empty());
        assert(json_escaped_chars(s.push(c)) == json_escaped_char(c) + json_escaped_chars(
            Seq::<char>::empty(),
        ));
        assert(json_escaped_chars(s.push(c)) =~= json_escaped_char(c));
        assert(json_escaped_chars(s) + json_escaped_char(c) =~= json_escaped_char(c));
    } else {
        assert(s.push(c).drop_first() =~= s.drop_first().push(c));
        lemma_json_escape_push(s.drop_first(), c);
        assert(json_escaped_chars(s.push(c)) =~= json_escaped_chars(s) + json_escaped_char(c));
    }
}

/// The lower-case hexadecimal digit of `n`, which must be below sixteen.
fn hex_char(n: u32) -> (r: char)
    requires
        n < 16,
    ensures
        r == hex_char_of(n),
{
    if n == 0 {
        '0'
    } else if n == 1 {
        '1'
    } else if n == 2 {
        '2'
    } else if n == 3 {
        '3'
    } else if n == 4 {
        '4'
    } else if n == 5 {
        '5'
    } else if n == 6 {
        '6'
    } else if n == 7 {
        '7'
    } else if n == 8 {
        '8'
    } else if n == 9 {
        '9'
    } else if n == 10 {
        'a'
    } else if n == 11 {
        'b'
    } else if n == 12 {
        'c'
    } else if n == 13 {
        'd'
    } else if n == 14 {
        'e'
    } else {
        'f'
    }
}

/// Writes `s` as a JSON string literal, quotes included, escaping as JSON
/// requires.
pub fn json_quote(s: &str) -> (r: String)
    ensures
        r@ == json_quoted(s@),
{
    let n = s.unicode_len();
    let mut r = String::new();
    r.push('"');
    let mut i: usize = 0;
    proof {
        assert(s@.subrange(0, 0) =~= Seq::<char>::empty());
        assert(r@ =~= seq!['"'] + json_escaped_chars(s@.subrange(0, 0)));
    }
    while i < n
        invariant
            n == s@.len(),
            0 <= i <= n,
            r@ == seq!['"'] + json_escaped_chars(s@.subrange(0, i as int)),
        decreases n - i,
    {
        let ghost r0 = r@;
        let c = s.get_char(i);
        if c == '"' {
            r.push('\\');
            r.push('"');
        } else if c == '\\' {
            r.push('\\');
            r.push('\\');
        } else if c == '\u{8}' {
            r.push('\\');
            r.push('b');
        } else if c == '\t' {
            r.push('\\');
            r.push('t');
        } else if c == '\n' {
            r.push('\\');
            r.push('n');
        } else if c == '\u{c}' {
            r.push('\\');
            r.push('f');
        } else if c == '\r' {
            r.push('\\');
            r.push('r');
        } else if (c as u32) < 32 {
            r.push('\\');
            r.push('u');
            r.push('0');
            r.push('0');
            r.push(hex_char((c as u32) / 16));
            r.push(hex_char((c as u32) % 16));
        } else {
            r.push(c);
        }
        proof {
            assert(r@ =~= r0 + json_escaped_char(c));
            lemma_json_escape_push(s@.subrange(0, i as int), c);
            assert(s@.subrange(0, i + 1) =~= s@.subrange(0, i as int).push(c));
        }
        i += 1;
    }
    r.push('"');
    proof {
        assert(s@.subrange(0, n as int) =~= s@);
        assert(r@ =~= json_quoted(s@));
    }
    r
}

/// Unescaping a value that was escaped gives back the original: the
/// escaping of string leaves is undone everywhere in the tree, and nothing
/// else ever changed.
pub proof fn lemma_unescape_escape_json(v: JsonValue, e: JsonValue, u: JsonValue)
    requires
        is_escaped_of(e, v),
        is_unescaped_of(u, e),
    ensures
        json_eq(u, v),
    decreases v,
{
    match (v, e, u) {
        (JsonValue::String(x), JsonValue::String(y), JsonValue::String(z)) => {
            lemma_unescape_escape(x@);
        },
        (JsonValue::Array(x), JsonValue::Array(y), JsonValue::Array(z)) => {
            assert forall|i: int| 0 <= i < z.len() implies json_eq(#[trigger] z@[i], x@[i]) by {
                lemma_unescape_escape_json(x@[i], y@[i], z@[i]);
            }
        },
        (JsonValue::Object(x), JsonValue::Object(y), JsonValue::Object(z)) => {
            assert forall|i: int| 0 <= i < z.len() implies (#[trigger] z@[i]).0@ == x@[i].0@
                && json_eq(z@[i].1, x@[i].1) by {
                lemma_unescape_escape_json(x@[i].1, y@[i].1, z@[i].1);
            }
        },
        _ => {},
    }
}

} // verus!
