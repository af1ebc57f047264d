use vstd::prelude::*;

verus! {

/// A JSON document as the engine reads and writes it on the wire.
///
/// Integral numbers that fit in an `i64` are kept exactly; any other number is
/// only known to be a number. Object members keep their order.
#[derive(Debug, PartialEq)]
pub enum JsonValue {
    Null,
    Bool(bool),
    Int(i64),
    OtherNumber,
    Str(String),
    Array(Vec<JsonValue>),
    Object(Vec<(String, JsonValue)>),
}

/// The value of the first member named `key` at or after index `i`.
pub open spec fn member_from(entries: Seq<(String, JsonValue)>, key: Seq<char>, i: int) -> Option<JsonValue>
    decreases entries.len() - i,
{
    if i < 0 || i >= entries.len() {
        None
    } else if entries[i].0@ == key {
        Some(entries[i].1)
    } else {
        member_from(entries, key, i + 1)
    }
}

/// The value of the first member named `key` of an object; nothing for any other value.
pub open spec fn spec_member(v: JsonValue, key: Seq<char>) -> Option<JsonValue> {
    match v {
        JsonValue::Object(entries) => member_from(entries@, key, 0),
        _ => None,
    }
}

/// The unsigned 32-bit integer held by `v`, if it holds one.
pub open spec fn spec_u32_of(v: Option<JsonValue>) -> Option<u32> {
    match v {
        Some(JsonValue::Int(n)) => if 0 <= n <= u32::MAX { Some(n as u32) } else { None },
        _ => None,
    }
}

/// The characters of the string held by `v`, if it holds one.
pub open spec fn spec_str_of(v: Option<JsonValue>) -> Option<Seq<char>> {
    match v {
        Some(JsonValue::Str(s)) => Some(s@),
        _ => None,
    }
}

/// The boolean held by `v`, if it holds one.
pub open spec fn spec_bool_of(v: Option<JsonValue>) -> Option<bool> {
    match v {
        Some(JsonValue::Bool(b)) => Some(b),
        _ => None,
    }
}

/// `entry` is the member `key` holding the integer `n`.
pub open spec fn is_int_member(entry: (String, JsonValue), key: Seq<char>, n: u32) -> bool {
    &&& entry.0@ == key
    &&& entry.1 == JsonValue::Int(n as i64)
}

/// `entry` is the member `key` holding the string `s`.
pub open spec fn is_str_member(entry: (String, JsonValue), key: Seq<char>, s: Seq<char>) -> bool {
    &&& entry.0@ == key
    &&& entry.1 matches JsonValue::Str(t) && t@ == s
}

impl JsonValue {
    /// The first member named `key`, when `self` is an object.
    pub fn member(&self, key: &str) -> (r: Option<&JsonValue>)
        ensures
            match r {
                Some(x) => spec_member(*self, key@) == Some(*x),
                None => spec_member(*self, key@) is None,
            },
    {
        match self {
            JsonValue::Object(entries) => {
                let wanted = String::from_str(key);
                let mut i: usize = 0;
                while i < entries.len()
                    invariant
                        0 <= i <= entries.len(),
                        wanted@ == key@,
                        spec_member(*self, key@) == member_from(entries@, key@, 0),
                        member_from(entries@, key@, 0) == member_from(entries@, key@, i as int),
                    decreases entries.len() - i,
                {
                    if entries[i].0 == wanted {
                        assert(member_from(entries@, key@, i as int) == Some(entries@[i as int].1));
                        return Some(&entries[i].1);
                    }
                    i = i + 1;
                }
                None
            },
            _ => None,
        }
    }

    /// The member `key` read as an unsigned 32-bit integer.
    pub fn member_u32(&self, key: &str) -> (r: Option<u32>)
        ensures
            r == spec_u32_of(spec_member(*self, key@)),
    {
        match self.member(key) {
            Some(JsonValue::Int(n)) => {
                if 0 <= *n && *n <= u32::MAX as i64 {
                    Some(*n as u32)
                } else {
                    None
                }
            },
            _ => None,
        }
    }

    /// The member `key` read as a string.
    pub fn member_str(&self, key: &str) -> (r: Option<String>)
        ensures
            match r {
                Some(s) => spec_str_of(spec_member(*self, key@)) == Some(s@),
                None => spec_str_of(spec_member(*self, key@)) is None,
            },
    {
        match self.member(key) {
            Some(JsonValue::Str(s)) => Some(s.clone()),
            _ => None,
        }
    }

    /// The member `key` read as a boolean.
    pub fn member_bool(&self, key: &str) -> (r: Option<bool>)
        ensures
            r == spec_bool_of(spec_member(*self, key@)),
    {
        match self.member(key) {
            Some(JsonValue::Bool(b)) => Some(*b),
            _ => None,
        }
    }
}

/// An object member holding an integer.
pub fn int_member(key: &str, n: u32) -> (r: (String, JsonValue))
    ensures
        is_int_member(r, key@, n),
{
    (String::from_str(key), JsonValue::Int(n as i64))
}

/// An object member holding a string.
pub fn str_member(key: &str, s: &String) -> (r: (String, JsonValue))
    ensures
        is_str_member(r, key@, s@),
{
    (String::from_str(key), JsonValue::Str(s.clone()))
}

} // verus!
