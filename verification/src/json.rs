//! A JSON document model carried through the protocol layers.

use vstd::prelude::*;
use crate::text::str_eq;

verus! {

broadcast use vstd::std_specs::vec::group_vec_axioms;

/// A JSON value. Numbers keep their decimal text.
#[derive(Debug, PartialEq, Eq)]
pub enum JsonValue {
    /// `null`
    Null,
    /// `true` or `false`
    Bool(bool),
    /// A number, as its JSON text.
    Number(String),
    /// A string.
    String(String),
    /// An array.
    Array(Vec<JsonValue>),
    /// An object, as its members in order.
    Object(Vec<(String, JsonValue)>),
}

/// The value of the first member named `key` in a list of object members.
pub open spec fn member_value(members: Seq<(String, JsonValue)>, key: Seq<char>) -> Option<JsonValue>
    decreases members.len(),
{
    if members.len() == 0 {
        None
    } else if members[0].0@ == key {
        Some(members[0].1)
    } else {
        member_value(members.subrange(1, members.len() as int), key)
    }
}

/// The member `key` of an object value; `None` for other values.
pub open spec fn json_get(v: JsonValue, key: Seq<char>) -> Option<JsonValue> {
    match v {
        JsonValue::Object(members) => member_value(members@, key),
        _ => None,
    }
}

/// The text of a string value.
pub open spec fn json_str(v: JsonValue) -> Option<Seq<char>> {
    match v {
        JsonValue::String(s) => Some(s@),
        _ => None,
    }
}

impl JsonValue {
    /// The member `key` of an object value (`Value::get`).
    pub fn get(&self, key: &str) -> (r: Option<&JsonValue>)
        ensures
            match r {
                Some(x) => json_get(*self, key@) == Some(*x),
                None => json_get(*self, key@) is None,
            },
    {
        match self {
            JsonValue::Object(members) => {
                let mut i: usize = 0;
                assert(members@.subrange(0, members@.len() as int) =~= members@);
                while i < members.len()
                    invariant
                        i <= members@.len(),
                        *self == JsonValue::Object(*members),
                        member_value(members@, key@) == member_value(members@.subrange(i as int, members@.len() as int), key@),
                    decreases members.len() - i,
                {
                    let ghost rest = members@.subrange(i as int, members@.len() as int);
                    assert(rest[0] == members@[i as int]);
                    if str_eq(members[i].0.as_str(), key) {
                        assert(rest[0].0@ == key@);
                        assert(member_value(rest, key@) == Some(rest[0].1));
                        return Some(&members[i].1);
                    }
                    assert(rest.subrange(1, rest.len() as int) =~= members@.subrange(i + 1, members@.len() as int));
                    i = i + 1;
                }
                None
            },
            _ => None,
        }
    }

    /// The text of a string value (`Value::as_str`).
    pub fn as_str(&self) -> (r: Option<&str>)
        ensures
            match r {
                Some(s) => json_str(*self) == Some(s@),
                None => json_str(*self) is None,
            },
    {
        match self {
            JsonValue::String(s) => Some(s.as_str()),
            _ => None,
        }
    }

    /// Whether the value is `null`.
    pub fn is_null(&self) -> (r: bool)
        ensures
            r == (*self is Null),
    {
        match self {
            JsonValue::Null => true,
            _ => false,
        }
    }
}

/// A JSON value as a mathematical object, its texts as character sequences.
pub enum JsonModel {
    Null,
    Bool(bool),
    Number(Seq<char>),
    String(Seq<char>),
    Array(Seq<JsonModel>),
    Object(Seq<(Seq<char>, JsonModel)>),
}

/// The mathematical object a JSON value stands for.
pub open spec fn json_model(v: JsonValue) -> JsonModel
    decreases v,
{
    match v {
        JsonValue::Null => JsonModel::Null,
        JsonValue::Bool(b) => JsonModel::Bool(b),
        JsonValue::Number(n) => JsonModel::Number(n@),
        JsonValue::String(s) => JsonModel::String(s@),
        JsonValue::Array(items) => JsonModel::Array(Seq::new(items@.len(), |i: int|
            if 0 <= i < items@.len() {
                json_model(items@[i])
            } else {
                JsonModel::Null
            })),
        JsonValue::Object(members) => JsonModel::Object(Seq::new(members@.len(), |i: int|
            if 0 <= i < members@.len() {
                (members@[i].0@, json_model(members@[i].1))
            } else {
                (Seq::empty(), JsonModel::Null)
            })),
    }
}

/// Two lists of named values with the same names and values, in order.
pub open spec fn same_members(a: Seq<(String, JsonValue)>, b: Seq<(String, JsonValue)>) -> bool {
    a.len() == b.len() && forall|i: int| 0 <= i < a.len() ==> (#[trigger] a[i]).0 == b[i].0
        && json_model(a[i].1) == json_model(b[i].1)
}

/// A copy of a JSON value.
fn json_clone(v: &JsonValue) -> (r: JsonValue)
    ensures
        json_model(r) == json_model(*v),
    decreases v,
{
    match v {
        JsonValue::Null => JsonValue::Null,
        JsonValue::Bool(b) => JsonValue::Bool(*b),
        JsonValue::Number(n) => JsonValue::Number(n.clone()),
        JsonValue::String(s) => JsonValue::String(s.clone()),
        JsonValue::Array(items) => {
            let mut out: Vec<JsonValue> = Vec::new();
            let mut i: usize = 0;
            while i < items.len()
                invariant
                    i <= items@.len(),
                    *v == JsonValue::Array(*items),
                    out@.len() == i,
                    forall|j: int| 0 <= j < i ==> json_model(#[trigger] out@[j]) == json_model(items@[j]),
                decreases items.len() - i,
            {
                proof {
                    assert(decreases_to!(*v => (*v)->Array_0));
                    assert(decreases_to!(*items => items@));
                    assert(decreases_to!(items@ => items@[i as int]));
                }
                out.push(json_clone(&items[i]));
                i = i + 1;
            }
            let r = JsonValue::Array(out);
            assert(json_model(r) == json_model(*v)) by {
                if let JsonModel::Array(a) = json_model(r) {
                    if let JsonModel::Array(b) = json_model(*v) {
                        assert(a =~= b);
                    }
                }
            }
            r
        },
        JsonValue::Object(members) => {
            let mut out: Vec<(String, JsonValue)> = Vec::new();
            let mut i: usize = 0;
            while i < members.len()
                invariant
                    i <= members@.len(),
                    *v == JsonValue::Object(*members),
                    out@.len() == i,
                    forall|j: int| 0 <= j < i ==> (#[trigger] out@[j]).0@ == members@[j].0@
                        && json_model(out@[j].1) == json_model(members@[j].1),
                decreases members.len() - i,
            {
                proof {
                    assert(decreases_to!(*v => (*v)->Object_0));
                    assert(decreases_to!(*members => members@));
                    assert(decreases_to!(members@ => members@[i as int]));
                    assert(decreases_to!(members@[i as int] => members@[i as int].1));
                }
                out.push((members[i].0.clone(), json_clone(&members[i].1)));
                i = i + 1;
            }
            let r = JsonValue::Object(out);
            assert(json_model(r) == json_model(*v)) by {
                if let JsonModel::Object(a) = json_model(r) {
                    if let JsonModel::Object(b) = json_model(*v) {
                        assert(a =~= b);
                    }
                }
            }
            r
        },
    }
}

impl Clone for JsonValue {
    fn clone(&self) -> (r: Self)
        ensures
            json_model(r) == json_model(*self),
    {
        json_clone(self)
    }
}

} // verus!
