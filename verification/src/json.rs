//! The JSON values that the launcher reads from version manifests.
use vstd::prelude::*;
use crate::text::chars_of;

verus! {

/// A JSON value, as the launcher reads it from a version manifest.
/// A number keeps its text; an object keeps its members in order.
#[derive(Debug)]
pub enum Json {
    Null,
    Bool(bool),
    Number(String),
    Str(String),
    Array(Vec<Json>),
    Object(Vec<(String, Json)>),
}

/// The value of the first member of `members` named `key`.
pub open spec fn member_value(members: Seq<(String, Json)>, key: Seq<char>) -> Option<Json>
    decreases members.len(),
{
    if members.len() == 0 {
        None
    } else if members[0].0@ == key {
        Some(members[0].1)
    } else {
        member_value(members.skip(1), key)
    }
}

/// What `value.get(key)` gives: the member of an object named `key`, and
/// nothing for any other value.
pub open spec fn json_get(j: Json, key: Seq<char>) -> Option<Json> {
    match j {
        Json::Object(m) => member_value(m@, key),
        _ => None,
    }
}

/// `get` on an optional value, as `and_then(|v| v.get(key))`.
pub open spec fn opt_get(o: Option<Json>, key: Seq<char>) -> Option<Json> {
    match o {
        Some(j) => json_get(j, key),
        None => None,
    }
}

/// The text of an optional string value, as `and_then(|v| v.as_str())`.
pub open spec fn opt_str(o: Option<Json>) -> Option<Seq<char>> {
    match o {
        Some(Json::Str(s)) => Some(s@),
        _ => None,
    }
}

/// The elements of an optional array value, as `and_then(|v| v.as_array())`.
pub open spec fn opt_array(o: Option<Json>) -> Option<Seq<Json>> {
    match o {
        Some(Json::Array(a)) => Some(a@),
        _ => None,
    }
}

/// Whether two strings are equal.
pub fn str_eq(a: &str, b: &str) -> (r: bool)
    ensures
        r == (a@ == b@),
{
    let av = chars_of(a);
    let bv = chars_of(b);
    if av.len() != bv.len() {
        return false;
    }
    let n = av.len();
    for i in 0..n
        invariant
            n == av@.len(),
            n == bv@.len(),
            av@ == a@,
            bv@ == b@,
            forall|j: int| 0 <= j < i ==> av@[j] == bv@[j],
    {
        if av[i] != bv[i] {
            assert(a@[i as int] != b@[i as int]);
            return false;
        }
    }
    assert(av@ =~= bv@);
    true
}

impl Json {
    /// The member named `key` of an object; nothing for other values.
    pub fn get(&self, key: &str) -> (r: Option<&Json>)
        ensures
            match r {
                Some(v) => json_get(*self, key@) == Some(*v),
                None => json_get(*self, key@) is None,
            },
    {
        match self {
            Json::Object(members) => {
                let n = members.len();
                assert(members@.skip(0) == members@);
                for i in 0..n
                    invariant
                        n == members@.len(),
                        json_get(*self, key@) == member_value(members@, key@),
                        member_value(members@, key@) == member_value(members@.skip(i as int), key@),
                {
                    let ghost rest = members@.skip(i as int);
                    assert(rest[0] == members@[i as int]);
                    assert(rest.skip(1) == members@.skip(i + 1));
                    if str_eq(members[i].0.as_str(), key) {
                        assert(member_value(rest, key@) == Some(rest[0].1));
                        return Some(&members[i].1);
                    }
                }
                assert(members@.skip(n as int).len() == 0);
                None
            },
            _ => None,
        }
    }

    /// The text of a string value.
    pub fn as_str(&self) -> (r: Option<&str>)
        ensures
            match r {
                Some(s) => opt_str(Some(*self)) == Some(s@),
                None => opt_str(Some(*self)) is None,
            },
    {
        match self {
            Json::Str(s) => Some(s.as_str()),
            _ => None,
        }
    }

    /// The elements of an array value.
    pub fn as_array(&self) -> (r: Option<&Vec<Json>>)
        ensures
            match r {
                Some(a) => opt_array(Some(*self)) == Some(a@),
                None => opt_array(Some(*self)) is None,
            },
    {
        match self {
            Json::Array(a) => Some(a),
            _ => None,
        }
    }
}

/// `get` on an optional value.
pub fn get_in<'a>(o: Option<&'a Json>, key: &str) -> (r: Option<&'a Json>)
    ensures
        match (o, r) {
            (Some(j), Some(v)) => opt_get(Some(*j), key@) == Some(*v),
            (Some(j), None) => opt_get(Some(*j), key@) is None,
            (None, r) => r is None,
        },
{
    match o {
        Some(j) => j.get(key),
        None => None,
    }
}

/// The text of an optional string value.
pub fn str_in<'a>(o: Option<&'a Json>) -> (r: Option<&'a str>)
    ensures
        match (o, r) {
            (Some(j), Some(s)) => opt_str(Some(*j)) == Some(s@),
            (Some(j), None) => opt_str(Some(*j)) is None,
            (None, r) => r is None,
        },
{
    match o {
        Some(j) => j.as_str(),
        None => None,
    }
}

} // verus!
