//! A plain model of decoded JSON bodies.
//!
//! The remote service answers with JSON; the application parses the raw text
//! and hands the decoders of this crate a `JsonValue` tree. Only the shapes
//! the protocol actually distinguishes are kept: numbers that are not
//! unsigned integers collapse into `Other`, since every decoder treats them
//! as a schema mismatch anyway.

use vstd::prelude::*;

verus! {

/// One decoded JSON value.
///
/// `Other` stands for any JSON value the protocol never accepts in a typed
/// slot (negative or fractional numbers); decoders fail on it exactly as
/// they fail on any other mismatched shape.
#[derive(Debug)]
pub enum JsonValue {
    Null,
    Bool(bool),
    UInt(u64),
    Str(String),
    Arr(Vec<JsonValue>),
    Obj(Vec<(String, JsonValue)>),
    Other,
}

/// The value of the first entry of `fields` at or after position `i` whose
/// key reads `key`, if any.
pub open spec fn lookup_from(fields: Seq<(String, JsonValue)>, key: Seq<char>, i: int) -> Option<
    JsonValue,
>
    decreases fields.len() - i,
{
    if i < 0 || i >= fields.len() {
        None
    } else if fields[i].0@ == key {
        Some(fields[i].1)
    } else {
        lookup_from(fields, key, i + 1)
    }
}

/// The value of the first entry of an object's field list whose key reads
/// `key`, if any.
pub open spec fn spec_lookup(fields: Seq<(String, JsonValue)>, key: Seq<char>) -> Option<
    JsonValue,
> {
    lookup_from(fields, key, 0)
}

/// Find the first field of a decoded JSON object named `key`.
pub fn lookup<'a>(fields: &'a Vec<(String, JsonValue)>, key: &str) -> (r: Option<&'a JsonValue>)
    ensures
        match r {
            Some(v) => spec_lookup(fields@, key@) == Some(*v),
            None => spec_lookup(fields@, key@) is None,
        },
{
    let key_owned: String = key.to_owned();
    let mut i: usize = 0;
    while i < fields.len()
        invariant
            0 <= i <= fields@.len(),
            key_owned@ == key@,
            spec_lookup(fields@, key@) == lookup_from(fields@, key@, i as int),
        decreases fields@.len() - i,
    {
        if fields[i].0 == key_owned {
            return Some(&fields[i].1);
        }
        i = i + 1;
    }
    None
}

} // verus!
