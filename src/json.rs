//! A plain model of a parsed JSON document: the field extractor that
//! walks a dotted path through it, and its compact JSON text.

use vstd::prelude::*;
use crate::text::{digit, split_on, split_text};

verus! {

/// A parsed JSON value. A number keeps the text it was written with; an
/// object keeps its members in document order. An array or an object also
/// keeps the compact JSON text serde_json writes for it.
#[derive(Debug)]
pub enum Json {
    Null,
    Bool(bool),
    Number(String),
    Str(String),
    Array { items: Vec<Json>, text: String },
    Object { members: Vec<(String, Json)>, text: String },
}

/// The value of the first member of `members` named `key`.
pub open spec fn member(members: Seq<(String, Json)>, key: Seq<char>) -> Option<Json>
    decreases members.len(),
{
    if members.len() == 0 {
        None
    } else if members[0].0@ == key {
        Some(members[0].1)
    } else {
        member(members.drop_first(), key)
    }
}

/// The member `key` of `v`, when `v` is an object that has one.
pub open spec fn child(v: Json, key: Seq<char>) -> Option<Json> {
    match v {
        Json::Object { members, .. } => member(members@, key),
        _ => None,
    }
}

/// The value reached from `v` by indexing each of `keys` in turn as an
/// object key; `None` where a key is missing or a value on the way is not
/// an object.
pub open spec fn nested(v: Json, keys: Seq<Seq<char>>) -> Option<Json>
    decreases keys.len(),
{
    if keys.len() == 0 {
        Some(v)
    } else {
        match child(v, keys[0]) {
            Some(c) => nested(c, keys.drop_first()),
            None => None,
        }
    }
}

/// The keys of a dotted path, `a.b.c`.
pub open spec fn path_keys(path: Seq<char>) -> Seq<Seq<char>> {
    split_on(path, '.')
}

/// The value at a dotted path, JSON null where the path does not lead to one.
pub open spec fn value_at(doc: Json, path: Seq<char>) -> Json {
    match nested(doc, path_keys(path)) {
        Some(v) => v,
        None => Json::Null,
    }
}

/// The value of the first member of `members` named `key`.
fn find_member<'a>(members: &'a Vec<(String, Json)>, key: &String) -> (r: Option<&'a Json>)
    ensures
        r is Some <==> member(members@, key@) is Some,
        r is Some ==> member(members@, key@) == Some(*r->0),
{
    let mut j: usize = 0;
    assert(members@.skip(0) =~= members@);
    while j < members.len()
        invariant
            j <= members.len(),
            member(members@, key@) == member(members@.skip(j as int), key@),
        decreases members.len() - j,
    {
        assert(members@.skip(j as int).drop_first() =~= members@.skip(j + 1));
        if members[j].0 == *key {
            return Some(&members[j].1);
        }
        j = j + 1;
    }
    None
}

/// Walks `keys` from `value`, one object key at a time.
pub fn get_field<'a>(value: &'a Json, keys: &Vec<String>) -> (r: Option<&'a Json>)
    ensures
        r is Some <==> nested(*value, keys@.map_values(|k: String| k@)) is Some,
        r is Some ==> nested(*value, keys@.map_values(|k: String| k@)) == Some(*r->0),
{
    let ghost ks = keys@.map_values(|k: String| k@);
    let mut cur: &'a Json = value;
    let mut i: usize = 0;
    assert(ks.skip(0) =~= ks);
    while i < keys.len()
        invariant
            i <= keys.len(),
            ks == keys@.map_values(|k: String| k@),
            nested(*value, ks) == nested(*cur, ks.skip(i as int)),
        decreases keys.len() - i,
    {
        assert(ks.skip(i as int).drop_first() =~= ks.skip(i + 1));
        assert(ks.skip(i as int)[0] == keys@[i as int]@);
        match cur {
            Json::Object { members, .. } => {
                match find_member(members, &keys[i]) {
                    Some(c) => {
                        cur = c;
                    },
                    None => {
                        return None;
                    },
                }
            },
            _ => {
                return None;
            },
        }
        i = i + 1;
    }
    assert(ks.skip(i as int) =~= Seq::<Seq<char>>::empty());
    Some(cur)
}

/// The value at the dotted `path` in `doc`. `None` stands for JSON null:
/// a missing key, or a value on the way that is not an object. The walk
/// never fails otherwise.
pub fn field_at<'a>(doc: &'a Json, path: &str) -> (r: Option<&'a Json>)
    ensures
        r is Some <==> nested(*doc, path_keys(path@)) is Some,
        r is Some ==> value_at(*doc, path@) == *r->0,
        r is None ==> value_at(*doc, path@) == Json::Null,
{
    let keys = split_text(path, '.');
    get_field(doc, &keys)
}

/// A hexadecimal digit, lower case.
pub open spec fn hex_digit(d: nat) -> char {
    if d < 10 {
        digit(d)
    } else if d == 10 {
        'a'
    } else if d == 11 {
        'b'
    } else if d == 12 {
        'c'
    } else if d == 13 {
        'd'
    } else if d == 14 {
        'e'
    } else {
        'f'
    }
}

/// How a character is written inside a JSON string literal: quote and
/// backslash escaped, the short escapes for backspace, tab, line feed,
/// form feed and carriage return, `\u00XX` for the other control
/// characters, anything else as it is.
pub open spec fn escaped_char(c: char) -> Seq<char> {
    if c == '"' {
        seq!['\\', '"']
    } else if c == '\\' {
        seq!['\\', '\\']
    } else if c == '\u{8}' {
        seq!['\\', 'b']
    } else if c == '\t' {
        seq!['\\', 't']
    } else if c == '\n' {
        seq!['\\', 'n']
    } else if c == '\u{c}' {
        seq!['\\', 'f']
    } else if c == '\r' {
        seq!['\\', 'r']
    } else if (c as u32) < 0x20 {
        seq!['\\', 'u', '0', '0', hex_digit((c as u32 / 16) as nat), hex_digit((c as u32 % 16) as nat)]
    } else {
        seq![c]
    }
}

/// The characters of `s`, each escaped for a JSON string literal.
pub open spec fn escaped(s: Seq<char>) -> Seq<char>
    decreases s.len(),
{
    if s.len() == 0 {
        Seq::empty()
    } else {
        escaped(s.drop_last()) + escaped_char(s.last())
    }
}

/// The JSON string literal holding `s`, as serde_json writes it.
pub open spec fn json_quoted(s: Seq<char>) -> Seq<char> {
    seq!['"'] + escaped(s) + seq!['"']
}

/// What serde_json reads as a string from the JSON text `t`: the decoded
/// literal, or `None` where `t` is not a JSON string.
pub uninterp spec fn json_unquoted(t: Seq<char>) -> Option<Seq<char>>;

/// Relies on serde_json's `Display for Value` on a string value: it writes
/// the literal escaped as `json_quoted` says and cannot fail, and
/// `serde_json::from_str::<String>` reads that literal back as `s`.
#[verifier::external_body]
fn quote(s: &str) -> (r: String)
    ensures
        r@ == json_quoted(s@),
        json_unquoted(r@) == Some(s@),
{
    serde_json::Value::String(s.to_string()).to_string()
}

/// Relies on `serde_json::from_str::<String>`: decodes a JSON string
/// literal, and fails on any other text.
#[verifier::external_body]
pub(crate) fn unquote(t: &str) -> (r: Option<String>)
    ensures
        r is Some <==> json_unquoted(t@) is Some,
        r is Some ==> json_unquoted(t@) == Some(r->0@),
{
    serde_json::from_str::<String>(t).ok()
}

/// The compact JSON text of `v`, as serde_json writes it. An array or an
/// object carries that text from where it was parsed.
pub open spec fn json_text(v: Json) -> Seq<char> {
    match v {
        Json::Null => seq!['n', 'u', 'l', 'l'],
        Json::Bool(b) => if b {
            seq!['t', 'r', 'u', 'e']
        } else {
            seq!['f', 'a', 'l', 's', 'e']
        },
        Json::Number(t) => t@,
        Json::Str(s) => json_quoted(s@),
        Json::Array { items, text } => text@,
        Json::Object { members, text } => text@,
    }
}

/// The text a header placeholder takes for `v`: a string without its
/// quotes, any other value as JSON text.
pub open spec fn display_text(v: Json) -> Seq<char> {
    match v {
        Json::Str(s) => s@,
        _ => json_text(v),
    }
}

/// The compact JSON text of `v`. Where `v` is a string, serde_json reads
/// the text back as that string.
pub fn to_json_text(v: &Json) -> (r: String)
    ensures
        r@ == json_text(*v),
        v is Str ==> json_unquoted(r@) == Some(v->Str_0@),
{
    proof {
        reveal_strlit("null");
        reveal_strlit("true");
        reveal_strlit("false");
    }
    match v {
        Json::Null => "null".to_owned(),
        Json::Bool(b) => if *b {
            "true".to_owned()
        } else {
            "false".to_owned()
        },
        Json::Number(t) => t.clone(),
        Json::Str(s) => quote(s.as_str()),
        Json::Array { text, .. } => text.clone(),
        Json::Object { text, .. } => text.clone(),
    }
}

/// The text a header placeholder takes for `v`: a string without its
/// quotes, any other value as JSON text.
pub fn to_display_text(v: &Json) -> (r: String)
    ensures
        r@ == display_text(*v),
{
    match v {
        Json::Str(s) => s.clone(),
        _ => to_json_text(v),
    }
}

} // verus!
