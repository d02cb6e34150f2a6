//! A plain model of a parsed JSON document and the lookups the log logic makes on it.
//!
//! Objects keep their members in a `Vec`; a lookup finds the first member with the key,
//! which for a document read from JSON text, whose objects have distinct keys, is the only
//! one (`law_lookup_finds_the_member`).
use vstd::prelude::*;
use crate::text::owned;

verus! {

/// A JSON number: its value when it is an integer that fits in `i64`, and its text.
pub struct JsonNumber {
    pub as_i64: Option<i64>,
    pub text: String,
}

/// A JSON value.
pub enum JsonValue {
    Null,
    Bool(bool),
    Number(JsonNumber),
    Str(String),
    Array(Vec<JsonValue>),
    Object(Vec<(String, JsonValue)>),
}

/// The value of the first member of `members` whose key is `key`.
pub open spec fn member_value(members: Seq<(String, JsonValue)>, key: Seq<char>) -> Option<JsonValue>
    decreases members.len(),
{
    if members.len() == 0 {
        None
    } else if members[0].0@ == key {
        Some(members[0].1)
    } else {
        member_value(members.drop_first(), key)
    }
}

/// The keys of an object's members are distinct, as in a JSON document read into a map.
pub open spec fn keys_distinct(members: Seq<(String, JsonValue)>) -> bool {
    forall|i: int, j: int|
        0 <= i < j < members.len() ==> #[trigger] members[i].0@ != #[trigger] members[j].0@
}

/// In an object whose keys are distinct, looking a key up finds the one member with that
/// key, as a map lookup does.
pub proof fn law_lookup_finds_the_member(members: Seq<(String, JsonValue)>, key: Seq<char>, k: int)
    requires
        keys_distinct(members),
        0 <= k < members.len(),
        members[k].0@ == key,
    ensures
        member_value(members, key) == Some(members[k].1),
    decreases members.len(),
{
    if k > 0 {
        assert(members[0].0@ != members[k].0@);
        let rest = members.drop_first();
        assert(rest[k - 1] == members[k]);
        assert forall|i: int, j: int| 0 <= i < j < rest.len() implies #[trigger] rest[i].0@
            != #[trigger] rest[j].0@ by {
            assert(rest[i] == members[i + 1]);
            assert(rest[j] == members[j + 1]);
        }
        law_lookup_finds_the_member(rest, key, k - 1);
    }
}

/// `v.get(key)`: the member `key` of an object, `None` for anything else.
pub open spec fn json_get(v: JsonValue, key: Seq<char>) -> Option<JsonValue> {
    match v {
        JsonValue::Object(members) => member_value(members@, key),
        _ => None,
    }
}

/// `v.get(key).and_then(|x| x.as_str())`: the member `key` of an object when it is a string.
pub open spec fn json_get_str(v: JsonValue, key: Seq<char>) -> Option<String> {
    match json_get(v, key) {
        Some(JsonValue::Str(s)) => Some(s),
        _ => None,
    }
}

/// `v.get(key).and_then(|x| x.as_i64())`.
pub open spec fn json_get_i64(v: JsonValue, key: Seq<char>) -> Option<i64> {
    match json_get(v, key) {
        Some(JsonValue::Number(n)) => n.as_i64,
        _ => None,
    }
}

/// `v.get(key).and_then(|x| x.as_bool())`.
pub open spec fn json_get_bool(v: JsonValue, key: Seq<char>) -> Option<bool> {
    match json_get(v, key) {
        Some(JsonValue::Bool(b)) => Some(b),
        _ => None,
    }
}

/// `v.get(key)` when it is a number.
pub open spec fn json_get_number(v: JsonValue, key: Seq<char>) -> Option<JsonNumber> {
    match json_get(v, key) {
        Some(JsonValue::Number(n)) => Some(n),
        _ => None,
    }
}

// ---------------------------------------------------------------------------
// Reading JSON text
// ---------------------------------------------------------------------------
#[verifier::external_type_specification]
#[verifier::external_body]
pub struct ExSerdeJsonValue(serde_json::Value);

/// What `serde_json::from_str::<serde_json::Value>` reads from a text, in this model:
/// `None` when the text is not JSON.
pub uninterp spec fn json_reading(text: Seq<char>) -> Option<JsonValue>;

/// A `serde_json::Value` in this model, one for one: a number keeps its `as_i64` and its
/// text, an object its members in the map's order. It claims nothing; `read_json` states
/// what the reading as a whole gives.
#[verifier::external_body]
fn model_of_value(v: &serde_json::Value) -> JsonValue {
    match v {
        serde_json::Value::Null => JsonValue::Null,
        serde_json::Value::Bool(b) => JsonValue::Bool(*b),
        serde_json::Value::Number(n) => JsonValue::Number(JsonNumber { as_i64: n.as_i64(), text: n.to_string() }),
        serde_json::Value::String(s) => JsonValue::Str(s.clone()),
        serde_json::Value::Array(a) => JsonValue::Array(a.iter().map(model_of_value).collect()),
        serde_json::Value::Object(o) => JsonValue::Object(o.iter().map(|(k, x)| (k.clone(), model_of_value(x))).collect()),
    }
}

/// `serde_json::from_str::<serde_json::Value>` on the text, in this model; its result is
/// named, being a function of the text alone.
#[verifier::external_body]
pub fn read_json(text: &str) -> (r: Option<JsonValue>)
    ensures
        r == json_reading(text@),
{
    serde_json::from_str::<serde_json::Value>(text).ok().map(|v| model_of_value(&v))
}

/// Whether `a` and `b` hold the same characters.
pub fn str_eq(a: &str, b: &str) -> (r: bool)
    ensures
        r == (a@ == b@),
{
    owned(a) == owned(b)
}

impl JsonNumber {
    /// A copy of this number.
    pub fn copy(&self) -> (r: JsonNumber)
        ensures
            r == *self,
    {
        JsonNumber { as_i64: self.as_i64, text: self.text.clone() }
    }
}

impl JsonValue {
    /// The member `key` of an object; `None` when there is none or `self` is not an object.
    pub fn get(&self, key: &str) -> (r: Option<&JsonValue>)
        ensures
            r matches Some(x) ==> json_get(*self, key@) == Some(*x),
            r is None ==> json_get(*self, key@) is None,
    {
        match self {
            JsonValue::Object(members) => {
                let mut i: usize = 0;
                assert(members@.subrange(0, members@.len() as int) =~= members@);
                while i < members.len()
                    invariant
                        i <= members.len(),
                        json_get(*self, key@) == member_value(members@, key@),
                        member_value(members@, key@) == member_value(
                            members@.subrange(i as int, members@.len() as int),
                            key@,
                        ),
                    decreases members.len() - i,
                {
                    let rest = Ghost(members@.subrange(i as int, members@.len() as int));
                    assert(rest@[0] == members@[i as int]);
                    if str_eq(members[i].0.as_str(), key) {
                        assert(member_value(rest@, key@) == Some(rest@[0].1));
                        return Some(&members[i].1);
                    }
                    assert(rest@.drop_first() =~= members@.subrange(i + 1, members@.len() as int));
                    i = i + 1;
                }
                None
            },
            _ => None,
        }
    }

    /// The text of a string value.
    pub fn as_str(&self) -> (r: Option<&String>)
        ensures
            r matches Some(s) ==> *self == JsonValue::Str(*s),
            r is None ==> !(*self is Str),
    {
        match self {
            JsonValue::Str(s) => Some(s),
            _ => None,
        }
    }

    /// The elements of an array value.
    pub fn as_array(&self) -> (r: Option<&Vec<JsonValue>>)
        ensures
            r matches Some(a) ==> *self == JsonValue::Array(*a),
            r is None ==> !(*self is Array),
    {
        match self {
            JsonValue::Array(a) => Some(a),
            _ => None,
        }
    }

    /// The value of an integer number that fits in `i64`.
    pub fn as_i64(&self) -> (r: Option<i64>)
        ensures
            r == (match *self {
                JsonValue::Number(n) => n.as_i64,
                _ => None,
            }),
    {
        match self {
            JsonValue::Number(n) => n.as_i64,
            _ => None,
        }
    }

    /// The value of a boolean.
    pub fn as_bool(&self) -> (r: Option<bool>)
        ensures
            r == (match *self {
                JsonValue::Bool(b) => Some(b),
                _ => None,
            }),
    {
        match self {
            JsonValue::Bool(b) => Some(*b),
            _ => None,
        }
    }

    /// The member `key` of an object when it is a string, copied.
    pub fn get_str(&self, key: &str) -> (r: Option<String>)
        ensures
            r == json_get_str(*self, key@),
    {
        match self.get(key) {
            Some(v) => match v.as_str() {
                Some(s) => Some(s.clone()),
                None => None,
            },
            None => None,
        }
    }

    /// The member `key` of an object when it is an integer fitting in `i64`.
    pub fn get_i64(&self, key: &str) -> (r: Option<i64>)
        ensures
            r == json_get_i64(*self, key@),
    {
        match self.get(key) {
            Some(v) => v.as_i64(),
            None => None,
        }
    }

    /// The member `key` of an object when it is a boolean.
    pub fn get_bool(&self, key: &str) -> (r: Option<bool>)
        ensures
            r == json_get_bool(*self, key@),
    {
        match self.get(key) {
            Some(v) => v.as_bool(),
            None => None,
        }
    }

    /// The member `key` of an object when it is a number, copied.
    pub fn get_number(&self, key: &str) -> (r: Option<JsonNumber>)
        ensures
            r == json_get_number(*self, key@),
    {
        match self.get(key) {
            Some(JsonValue::Number(n)) => Some(n.copy()),
            _ => None,
        }
    }
}

} // verus!
