use vstd::prelude::*;
use vstd::string::StringSliceAdditionalSpecFns;
use vstd::utf8::*;
use serde_json::Value;

verus! {

/// A JSON integer.
#[derive(PartialEq, Eq, Structural, Clone, Copy, Debug)]
pub enum JsonNumber {
    /// A non-negative integer that fits in `u64`.
    PosInt(u64),
    /// A negative integer that fits in `i64`.
    NegInt(i64),
}

/// A JSON document: the values the device exchanges with the sender.
///
/// An object holds its members in order; looking a key up finds the first
/// member with that key.
#[derive(Debug, PartialEq)]
pub enum Json {
    Null,
    Bool(bool),
    Number(JsonNumber),
    /// Any other number, held by its decimal text.
    Float(String),
    Str(String),
    Array(Vec<Json>),
    Object(Vec<(String, Json)>),
}

/// The mathematical value of a JSON document.
pub enum JsonView {
    Null,
    Bool(bool),
    Number(JsonNumber),
    Float(Seq<char>),
    Str(Seq<char>),
    Array(Seq<JsonView>),
    Object(Seq<(Seq<char>, JsonView)>),
}

/// The mathematical value of `j`.
pub open spec fn json_view(j: Json) -> JsonView
    decreases j,
{
    match j {
        Json::Null => JsonView::Null,
        Json::Bool(b) => JsonView::Bool(b),
        Json::Number(n) => JsonView::Number(n),
        Json::Float(t) => JsonView::Float(t@),
        Json::Str(s) => JsonView::Str(s@),
        Json::Array(items) => JsonView::Array(
            Seq::new(
                items@.len(),
                |i: int| if 0 <= i < items@.len() { json_view(items@[i]) } else { JsonView::Null },
            ),
        ),
        Json::Object(members) => JsonView::Object(
            Seq::new(
                members@.len(),
                |i: int|
                    if 0 <= i < members@.len() {
                        (members@[i].0@, json_view(members@[i].1))
                    } else {
                        (Seq::empty(), JsonView::Null)
                    },
            ),
        ),
    }
}

impl View for Json {
    type V = JsonView;

    open spec fn view(&self) -> JsonView {
        json_view(*self)
    }
}

/// The value of the first member named `key`, looking from index `i` on.
pub open spec fn lookup_from(members: Seq<(Seq<char>, JsonView)>, key: Seq<char>, i: int) -> Option<JsonView>
    decreases members.len() - i,
{
    if i < 0 || i >= members.len() {
        None
    } else if members[i].0 == key {
        Some(members[i].1)
    } else {
        lookup_from(members, key, i + 1)
    }
}

/// The value of the member named `key`.
pub open spec fn lookup(members: Seq<(Seq<char>, JsonView)>, key: Seq<char>) -> Option<JsonView> {
    lookup_from(members, key, 0)
}

impl JsonView {
    /// The member `key` of an object; nothing for any other value.
    pub open spec fn get(self, key: Seq<char>) -> Option<JsonView> {
        match self {
            JsonView::Object(members) => lookup(members, key),
            _ => None,
        }
    }

    pub open spec fn as_str(self) -> Option<Seq<char>> {
        match self {
            JsonView::Str(s) => Some(s),
            _ => None,
        }
    }

    pub open spec fn as_u64(self) -> Option<u64> {
        match self {
            JsonView::Number(JsonNumber::PosInt(n)) => Some(n),
            _ => None,
        }
    }

    pub open spec fn as_bool(self) -> Option<bool> {
        match self {
            JsonView::Bool(b) => Some(b),
            _ => None,
        }
    }

    pub open spec fn as_object(self) -> Option<Seq<(Seq<char>, JsonView)>> {
        match self {
            JsonView::Object(members) => Some(members),
            _ => None,
        }
    }
}

/// The text of a string: `None` for every other value.
pub open spec fn opt_str(v: Option<JsonView>) -> Option<Seq<char>> {
    match v {
        Some(v) => v.as_str(),
        None => None,
    }
}

/// Whether two strings hold the same characters.
pub fn str_eq(a: &str, b: &str) -> (r: bool)
    ensures
        r == (a@ == b@),
{
    let x = a.as_bytes();
    let y = b.as_bytes();
    proof {
        encode_utf8_decode_utf8(a@);
        encode_utf8_decode_utf8(b@);
    }
    if x.len() != y.len() {
        return false;
    }
    let mut i: usize = 0;
    while i < x.len()
        invariant
            x@ == a.spec_bytes(),
            y@ == b.spec_bytes(),
            x@.len() == y@.len(),
            i <= x@.len(),
            forall|j: int| 0 <= j < i ==> x@[j] == y@[j],
        decreases x@.len() - i,
    {
        if x[i] != y[i] {
            return false;
        }
        i = i + 1;
    }
    assert(x@ =~= y@);
    true
}

/// The value of the member named `key` in `members`.
pub fn lookup_member<'a>(members: &'a Vec<(String, Json)>, key: &str) -> (r: Option<&'a Json>)
    ensures
        ({
            let ms = Seq::new(members@.len(), |i: int| (members@[i].0@, members@[i].1@));
            match r {
                Some(v) => lookup(ms, key@) == Some(v@),
                None => lookup(ms, key@) is None,
            }
        }),
{
    let ghost ms = Seq::new(members@.len(), |i: int| (members@[i].0@, members@[i].1@));
    let mut i: usize = 0;
    while i < members.len()
        invariant
            ms == Seq::new(members@.len(), |i: int| (members@[i].0@, members@[i].1@)),
            i <= members@.len(),
            lookup_from(ms, key@, 0) == lookup_from(ms, key@, i as int),
        decreases members@.len() - i,
    {
        let entry = &members[i];
        if str_eq(entry.0.as_str(), key) {
            return Some(&entry.1);
        }
        i = i + 1;
    }
    None
}

impl Json {
    /// The member `key` of an object; `None` for any other value.
    pub fn get(&self, key: &str) -> (r: Option<&Json>)
        ensures
            match r {
                Some(v) => self@.get(key@) == Some(v@),
                None => self@.get(key@) is None,
            },
    {
        match self {
            Json::Object(members) => {
                let ghost ms = Seq::new(members@.len(), |i: int| (members@[i].0@, members@[i].1@));
                assert(self@->Object_0 =~= ms);
                lookup_member(members, key)
            },
            _ => None,
        }
    }

    pub fn as_str(&self) -> (r: Option<&str>)
        ensures
            match r {
                Some(s) => self@.as_str() == Some(s@),
                None => self@.as_str() is None,
            },
    {
        match self {
            Json::Str(s) => Some(s.as_str()),
            _ => None,
        }
    }

    pub fn as_u64(&self) -> (r: Option<u64>)
        ensures
            r == self@.as_u64(),
    {
        match self {
            Json::Number(JsonNumber::PosInt(n)) => Some(*n),
            _ => None,
        }
    }

    pub fn as_bool(&self) -> (r: Option<bool>)
        ensures
            r == self@.as_bool(),
    {
        match self {
            Json::Bool(b) => Some(*b),
            _ => None,
        }
    }

    pub fn is_object(&self) -> (r: bool)
        ensures
            r == self@.as_object() is Some,
    {
        match self {
            Json::Object(_) => true,
            _ => false,
        }
    }
}


pub open spec fn opt_json_view(j: Option<Json>) -> Option<JsonView> {
    match j {
        Some(j) => Some(j@),
        None => None,
    }
}

#[verifier::external_type_specification]
#[verifier::external_body]
pub struct ExValue(Value);

/// The document that serde_json reads from `text`, `None` when `text` is
/// no JSON.
pub uninterp spec fn spec_parse_json(text: Seq<char>) -> Option<JsonView>;

/// The text that serde_json writes for `value`.
pub uninterp spec fn spec_json_text(value: JsonView) -> Seq<char>;

/// Converts a value of serde_json into the library's, member for member.
#[verifier::external_body]
fn json_from_serde(v: Value) -> Json {
    match v {
        Value::Null => Json::Null,
        Value::Bool(b) => Json::Bool(b),
        Value::Number(n) => match (n.as_u64(), n.as_i64()) {
            (Some(u), _) => Json::Number(JsonNumber::PosInt(u)),
            (None, Some(i)) => Json::Number(JsonNumber::NegInt(i)),
            (None, None) => Json::Float(n.to_string()),
        },
        Value::String(s) => Json::Str(s),
        Value::Array(items) => Json::Array(items.into_iter().map(json_from_serde).collect()),
        Value::Object(m) => Json::Object(m.into_iter().map(|(k, v)| (k, json_from_serde(v))).collect()),
    }
}

/// Converts a value of the library into serde_json's, member for member.
#[verifier::external_body]
fn json_to_serde(j: &Json) -> Value {
    match j {
        Json::Null => Value::Null,
        Json::Bool(b) => Value::Bool(*b),
        Json::Number(JsonNumber::PosInt(u)) => Value::from(*u),
        Json::Number(JsonNumber::NegInt(i)) => Value::from(*i),
        Json::Float(t) => t.parse::<serde_json::Number>().map_or(Value::Null, Value::Number),
        Json::Str(s) => Value::String(s.clone()),
        Json::Array(items) => Value::Array(items.iter().map(json_to_serde).collect()),
        Json::Object(m) => Value::Object(m.iter().map(|(k, v)| (k.clone(), json_to_serde(v))).collect()),
    }
}

/// Parses `text` as JSON with `serde_json::from_str` into a
/// `serde_json::Value`.
///
/// Trusted: the result is named by `spec_parse_json` of the text; nothing
/// else is claimed of serde_json's parser.
#[verifier::external_body]
pub fn parse_json(text: &str) -> (r: Option<Json>)
    ensures
        opt_json_view(r) == spec_parse_json(text@),
{
    serde_json::from_str::<Value>(text).ok().map(json_from_serde)
}

/// The JSON text of `value`, as serde_json's `Value` writes it (`to_string`,
/// compact form).
///
/// Trusted: the result is named by `spec_json_text` of the value; nothing
/// else is claimed of serde_json's writer.
#[verifier::external_body]
pub fn json_text(value: &Json) -> (r: String)
    ensures
        r@ == spec_json_text(value@),
{
    json_to_serde(value).to_string()
}

} // verus!
