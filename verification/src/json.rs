//! A JSON document as the records are read from it.
use crate::text::same_text;
use vstd::prelude::*;

verus! {

/// A JSON value. Numbers keep what integer reads need: a non-negative integer, a negative
/// integer, or any other number (with a fraction or an exponent, or beyond 64 bits). An object keeps its members in order, each
/// key once.
#[derive(Debug)]
pub enum Json {
    Null,
    Bool(bool),
    PosInt(u64),
    NegInt(i64),
    Fraction,
    Str(String),
    Array(Vec<Json>),
    Object(Vec<(String, Json)>),
}

/// The value of the first member named `key`.
pub open spec fn lookup_member(members: Seq<(String, Json)>, key: Seq<char>) -> Option<Json>
    decreases members.len(),
{
    if members.len() == 0 {
        None
    } else if members[0].0@ == key {
        Some(members[0].1)
    } else {
        lookup_member(members.drop_first(), key)
    }
}

/// The member `key` of an object; `None` for a missing member and for a value that is no object.
pub open spec fn json_member(x: Json, key: Seq<char>) -> Option<Json> {
    match x {
        Json::Object(members) => lookup_member(members@, key),
        _ => None,
    }
}

/// `x[key]`: the member `key`, or `null` where there is none.
pub open spec fn json_at(x: Json, key: Seq<char>) -> Json {
    match json_member(x, key) {
        Some(v) => v,
        None => Json::Null,
    }
}

/// The value as a signed 64-bit integer, where it is an integer in that range.
pub open spec fn json_as_i64(x: Json) -> Option<i64> {
    match x {
        Json::PosInt(n) => if n <= i64::MAX {
            Some(n as i64)
        } else {
            None
        },
        Json::NegInt(n) => Some(n),
        _ => None,
    }
}

/// The value as an unsigned 64-bit integer, where it is a non-negative integer.
pub open spec fn json_as_u64(x: Json) -> Option<u64> {
    match x {
        Json::PosInt(n) => Some(n),
        _ => None,
    }
}

/// The characters of a string value.
pub open spec fn json_as_str(x: Json) -> Option<Seq<char>> {
    match x {
        Json::Str(s) => Some(s@),
        _ => None,
    }
}

/// The value of a boolean.
pub open spec fn json_as_bool(x: Json) -> Option<bool> {
    match x {
        Json::Bool(b) => Some(b),
        _ => None,
    }
}

impl Json {
    /// The member `key` of an object.
    pub fn member(&self, key: &str) -> (r: Option<&Json>)
        ensures
            match r {
                Some(v) => json_member(*self, key@) == Some(*v),
                None => json_member(*self, key@) is None,
            },
    {
        match self {
            Json::Object(members) => {
                let mut i: usize = 0;
                assert(members@.skip(0) =~= members@);
                while i < members.len()
                    invariant
                        i <= members@.len(),
                        json_member(*self, key@) == lookup_member(members@, key@),
                        lookup_member(members@, key@) == lookup_member(members@.skip(i as int), key@),
                    decreases members@.len() - i,
                {
                    let entry = &members[i];
                    if same_text(entry.0.as_str(), key) {
                        assert(members@.skip(i as int)[0] == members@[i as int]);
                        return Some(&entry.1);
                    }
                    assert(members@.skip(i as int).drop_first() =~= members@.skip(i + 1));
                    i = i + 1;
                }
                None
            },
            _ => None,
        }
    }

    /// `self[key].as_i64()`.
    pub fn member_i64(&self, key: &str) -> (r: Option<i64>)
        ensures
            r == json_as_i64(json_at(*self, key@)),
    {
        match self.member(key) {
            Some(Json::PosInt(n)) => if *n <= 9223372036854775807u64 {
                Some(*n as i64)
            } else {
                None
            },
            Some(Json::NegInt(n)) => Some(*n),
            _ => None,
        }
    }

    /// `self[key].as_u64()`.
    pub fn member_u64(&self, key: &str) -> (r: Option<u64>)
        ensures
            r == json_as_u64(json_at(*self, key@)),
    {
        match self.member(key) {
            Some(Json::PosInt(n)) => Some(*n),
            _ => None,
        }
    }

    /// `self[key].as_str()`.
    pub fn member_str(&self, key: &str) -> (r: Option<&str>)
        ensures
            match r {
                Some(s) => json_as_str(json_at(*self, key@)) == Some(s@),
                None => json_as_str(json_at(*self, key@)) is None,
            },
    {
        match self.member(key) {
            Some(Json::Str(s)) => Some(s.as_str()),
            _ => None,
        }
    }

    /// `self[key].as_bool()`.
    pub fn member_bool(&self, key: &str) -> (r: Option<bool>)
        ensures
            r == json_as_bool(json_at(*self, key@)),
    {
        match self.member(key) {
            Some(Json::Bool(b)) => Some(*b),
            _ => None,
        }
    }

    /// The records of an answer: the elements of an array, or the value itself.
    pub fn records(&self) -> (r: Vec<&Json>)
        ensures
            r@.len() == json_records(*self).len(),
            forall|i: int| 0 <= i < r@.len() ==> *r@[i] == #[trigger] json_records(*self)[i],
    {
        let mut r: Vec<&Json> = Vec::new();
        match self {
            Json::Array(v) => {
                let mut i: usize = 0;
                while i < v.len()
                    invariant
                        i <= v@.len(),
                        r@.len() == i,
                        forall|j: int| 0 <= j < i ==> *r@[j] == #[trigger] v@[j],
                    decreases v@.len() - i,
                {
                    r.push(&v[i]);
                    i = i + 1;
                }
            },
            _ => {
                r.push(self);
            },
        }
        r
    }

    /// `self[key]`, or `None` where there is no such member (`null` in `serde_json`).
    pub fn member_or_null(&self, key: &str) -> (r: Option<&Json>)
        ensures
            match r {
                Some(v) => json_at(*self, key@) == *v,
                None => json_at(*self, key@) == Json::Null,
            },
    {
        self.member(key)
    }
}

/// The records of an answer: the elements of an array, or the value itself.
pub open spec fn json_records(x: Json) -> Seq<Json> {
    match x {
        Json::Array(v) => v@,
        _ => seq![x],
    }
}

/// `x["locked"].as_bool()? || x["locked_for_user"].as_bool()?`: `None` where a flag that is read
/// is missing; the second flag is read only when the first is `false`.
pub open spec fn lock_flags(x: Json) -> Option<bool> {
    match json_as_bool(json_at(x, "locked"@)) {
        None => None,
        Some(true) => Some(true),
        Some(false) => json_as_bool(json_at(x, "locked_for_user"@)),
    }
}

/// Reads the two lock flags of a record as `lock_flags` describes.
pub fn read_lock_flags(x: &Json) -> (r: Option<bool>)
    ensures
        r == lock_flags(*x),
{
    let locked = x.member_bool("locked")?;
    if locked {
        return Some(true);
    }
    x.member_bool("locked_for_user")
}

} // verus!
