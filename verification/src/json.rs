//! A JSON document as plain values, with the accessors that the run reads
//! replies through. Objects keep their members in order; a lookup by key finds
//! the first member with that key.
use vstd::prelude::*;

verus! {

/// A JSON number, as a JSON reader classifies it.
#[derive(Clone, Copy, Debug, PartialEq, Eq)]
pub enum JsonNumber {
    /// An integer from zero to `u64::MAX`.
    PosInt(u64),
    /// A negative integer that fits in an `i64`.
    NegInt(i64),
    /// Any other number (fractional, with an exponent, or out of range).
    Float,
}

/// A JSON value.
#[derive(Debug)]
pub enum Json {
    Null,
    Bool(bool),
    Number(JsonNumber),
    Str(String),
    Array(Vec<Json>),
    Object(Vec<(String, Json)>),
}

/// The value of the first member of `members` whose key is `key`.
pub open spec fn lookup(members: Seq<(String, Json)>, key: Seq<char>) -> Option<Json>
    decreases members.len(),
{
    if members.len() == 0 {
        None
    } else if members[0].0@ == key {
        Some(members[0].1)
    } else {
        lookup(members.drop_first(), key)
    }
}

/// The member found for a key is the first one that carries it.
pub proof fn lemma_lookup_at(members: Seq<(String, Json)>, key: Seq<char>, i: int)
    requires
        0 <= i < members.len(),
        members[i].0@ == key,
        forall|j: int| 0 <= j < i ==> members[j].0@ != key,
    ensures
        lookup(members, key) == Some(members[i].1),
    decreases i,
{
    if i > 0 {
        assert(members.drop_first()[i - 1] == members[i]);
        assert forall|j: int| 0 <= j < i - 1 implies members.drop_first()[j].0@ != key by {
            assert(members.drop_first()[j] == members[j + 1]);
        }
        lemma_lookup_at(members.drop_first(), key, i - 1);
    }
}

/// The member `key` of `v` when `v` is an object that has one.
pub open spec fn get_spec(v: Json, key: Seq<char>) -> Option<Json> {
    match v {
        Json::Object(members) => lookup(members@, key),
        _ => None,
    }
}

/// The characters of `v` when it is a string.
pub open spec fn str_spec(v: Json) -> Option<Seq<char>> {
    match v {
        Json::Str(s) => Some(s@),
        _ => None,
    }
}

/// The elements of `v` when it is an array.
pub open spec fn array_spec(v: Json) -> Option<Seq<Json>> {
    match v {
        Json::Array(items) => Some(items@),
        _ => None,
    }
}

/// `v` as an unsigned integer, when it is a number from zero to `u64::MAX`.
pub open spec fn u64_spec(v: Json) -> Option<u64> {
    match v {
        Json::Number(JsonNumber::PosInt(n)) => Some(n),
        _ => None,
    }
}

/// `v` as a signed integer, when it is an integer that fits in an `i64`.
pub open spec fn i64_spec(v: Json) -> Option<i64> {
    match v {
        Json::Number(JsonNumber::PosInt(n)) => if n <= i64::MAX {
            Some(n as i64)
        } else {
            None
        },
        Json::Number(JsonNumber::NegInt(n)) => Some(n),
        _ => None,
    }
}

/// `v` as a boolean, when it is one.
pub open spec fn bool_spec(v: Json) -> Option<bool> {
    match v {
        Json::Bool(b) => Some(b),
        _ => None,
    }
}

/// The text of a JSON string member `key` of `v`, when there is one.
pub open spec fn str_member(v: Json, key: Seq<char>) -> Option<Seq<char>> {
    match get_spec(v, key) {
        Some(m) => str_spec(m),
        None => None,
    }
}

/// Whether `v` has a member `key` that is the string `text`.
pub open spec fn has_str_member(v: Json, key: Seq<char>, text: Seq<char>) -> bool {
    str_member(v, key) == Some(text)
}

impl Json {
    /// The member `key` of an object; `None` for a missing key or a value that
    /// is not an object.
    pub fn get(&self, key: &str) -> (res: Option<&Json>)
        ensures
            match res {
                Some(m) => get_spec(*self, key@) == Some(*m),
                None => get_spec(*self, key@) is None,
            },
    {
        match self {
            Json::Object(members) => {
                let n: usize = members.len();
                let mut i: usize = 0;
                assert(members@.subrange(0, n as int) =~= members@);
                while i < n
                    invariant
                        n == members@.len(),
                        i <= n,
                        get_spec(*self, key@) == lookup(members@, key@),
                        lookup(members@, key@) == lookup(members@.subrange(i as int, n as int), key@),
                    decreases n - i,
                {
                    if crate::text::str_eq(members[i].0.as_str(), key) {
                        assert(members@.subrange(i as int, n as int)[0] == members@[i as int]);
                        return Some(&members[i].1);
                    }
                    assert(members@.subrange(i as int, n as int).drop_first()
                        =~= members@.subrange(i + 1, n as int));
                    i = i + 1;
                }
                None
            },
            _ => None,
        }
    }

    /// The text of a string value.
    pub fn as_str(&self) -> (res: Option<&str>)
        ensures
            match res {
                Some(s) => str_spec(*self) == Some(s@),
                None => str_spec(*self) is None,
            },
    {
        match self {
            Json::Str(s) => Some(s.as_str()),
            _ => None,
        }
    }

    /// The elements of an array value.
    pub fn as_array(&self) -> (res: Option<&Vec<Json>>)
        ensures
            match res {
                Some(a) => array_spec(*self) == Some(a@),
                None => array_spec(*self) is None,
            },
    {
        match self {
            Json::Array(items) => Some(items),
            _ => None,
        }
    }

    /// The value of a number from zero to `u64::MAX`.
    pub fn as_u64(&self) -> (res: Option<u64>)
        ensures
            res == u64_spec(*self),
    {
        match self {
            Json::Number(JsonNumber::PosInt(n)) => Some(*n),
            _ => None,
        }
    }

    /// The value of an integer that fits in an `i64`.
    pub fn as_i64(&self) -> (res: Option<i64>)
        ensures
            res == i64_spec(*self),
    {
        match self {
            Json::Number(JsonNumber::PosInt(n)) => if *n <= i64::MAX as u64 {
                Some(*n as i64)
            } else {
                None
            },
            Json::Number(JsonNumber::NegInt(n)) => Some(*n),
            _ => None,
        }
    }

    /// The value of a boolean.
    pub fn as_bool(&self) -> (res: Option<bool>)
        ensures
            res == bool_spec(*self),
    {
        match self {
            Json::Bool(b) => Some(*b),
            _ => None,
        }
    }
}

/// What `serde_json` reads from a text: the document, or the message of its
/// error when the text is not JSON.
pub uninterp spec fn parsed_json(text: Seq<char>) -> Result<Json, Seq<char>>;

#[verifier::external_type_specification]
#[verifier::external_body]
pub struct ExValue(serde_json::Value);

/// `serde_json::Value` as a `Json`, variant for variant: a number is read as
/// `as_u64`, else `as_i64`, else as another number.
#[verifier::external_body]
fn json_from_value(v: &serde_json::Value) -> Json {
    match v {
        serde_json::Value::Null => Json::Null,
        serde_json::Value::Bool(b) => Json::Bool(*b),
        serde_json::Value::Number(n) => Json::Number(match (n.as_u64(), n.as_i64()) {
            (Some(u), _) => JsonNumber::PosInt(u),
            (None, Some(i)) => JsonNumber::NegInt(i),
            (None, None) => JsonNumber::Float,
        }),
        serde_json::Value::String(s) => Json::Str(s.clone()),
        serde_json::Value::Array(a) => Json::Array(a.iter().map(json_from_value).collect()),
        serde_json::Value::Object(m) => Json::Object(m.iter().map(|(k, x)| (k.clone(), json_from_value(x))).collect()),
    }
}

/// Reads a JSON text with `serde_json::from_str`; the result is named by
/// `parsed_json`, which states nothing more of it. A text that is not JSON
/// gives the error's message (its `Display`).
#[verifier::external_body]
pub(crate) fn parse_json(text: &str) -> (res: Result<Json, String>)
    ensures
        match res {
            Ok(j) => parsed_json(text@) == Ok::<Json, Seq<char>>(j),
            Err(m) => parsed_json(text@) == Err::<Json, Seq<char>>(m@),
        },
{
    match serde_json::from_str::<serde_json::Value>(text) {
        Ok(v) => Ok(json_from_value(&v)),
        Err(e) => Err(e.to_string()),
    }
}

/// What `serde_json` reads from a reply's bytes, with the `Debug` rendering
/// of the value it read; nothing when the bytes are not JSON.
pub uninterp spec fn parsed_reply(bytes: Seq<u8>) -> Option<(Json, Seq<char>)>;

/// Reads a reply's bytes with `serde_json::from_slice`, and renders what it
/// read with `Debug`; the result is named by `parsed_reply`, which states
/// nothing more of it.
#[verifier::external_body]
pub(crate) fn parse_reply(bytes: &[u8]) -> (res: Option<(Json, String)>)
    ensures
        match res {
            Some((j, d)) => parsed_reply(bytes@) == Some((j, d@)),
            None => parsed_reply(bytes@) is None,
        },
{
    match serde_json::from_slice::<serde_json::Value>(bytes) {
        Ok(v) => Some((json_from_value(&v), format!("{:?}", v))),
        Err(_) => None,
    }
}

/// Whether `v` has a member `key` that is the string `text`.
pub fn str_member_is(v: &Json, key: &str, text: &str) -> (res: bool)
    ensures
        res == has_str_member(*v, key@, text@),
{
    match v.get(key) {
        Some(m) => match m.as_str() {
            Some(s) => crate::text::str_eq(s, text),
            None => false,
        },
        None => false,
    }
}

} // verus!
