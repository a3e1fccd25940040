//! The decoded ranking record and the positional row decoder.
//!
//! The rankings endpoint answers with rows that are bare JSON arrays: slot
//! `N` of a row always carries one fixed named attribute of the record, and
//! nothing in the payload names the fields. This module is the single place
//! where that implicit schema is written down. A row decodes if and only if
//! it has exactly [`ROW_LEN`] slots and every slot carries the expected
//! shape; a `null` is accepted only in the slots documented as optional.

use vstd::prelude::*;

use crate::json::JsonValue;

verus! {

/// The number of slots in one positional row of the rankings payload.
pub const ROW_LEN: usize = 24;

/// One athlete's ranking entry, decoded from a positional row.
///
/// A value of this type is immutable once decoded: it is constructed exactly
/// once per successful row decode and never changed afterwards.
#[derive(Debug, Clone, PartialEq)]
pub struct Powerlifter {
    pub sorted_index: u32,
    pub rank: u32,
    pub name: String,
    pub username: String,
    pub instagram: Option<String>,
    pub color: Option<String>,
    pub lifter_country: Option<String>,
    pub lifter_state: Option<String>,
    pub federation: String,
    pub date: String,
    pub meet_country: String,
    pub meet_state: Option<String>,
    pub path: String,
    pub sex: String,
    pub equipment: String,
    pub age: String,
    pub division: Option<String>,
    pub bodyweight: String,
    pub weightclass: String,
    pub squat: String,
    pub bench: String,
    pub deadlift: String,
    pub total: String,
    pub points: String,
}

/// A slot that must carry an unsigned integer small enough for `u32`.
pub open spec fn u32_ok(v: JsonValue) -> bool {
    v is UInt && v->UInt_0 <= u32::MAX
}

/// The integer a well-typed integer slot carries.
pub open spec fn spec_u32(v: JsonValue) -> u32 {
    v->UInt_0 as u32
}

/// An optional string slot: either `null` (the field is absent) or a string.
pub open spec fn opt_str_ok(v: JsonValue) -> bool {
    v is Null || v is Str
}

/// The value a well-typed optional string slot decodes to.
pub open spec fn spec_opt_str(v: JsonValue) -> Option<String> {
    if v is Str {
        Some(v->Str_0)
    } else {
        None
    }
}

/// Whether a positional row matches the record schema exactly: 24 slots,
/// each of the expected shape, with `null` accepted only in the optional
/// slots (instagram, color tag, lifter country and state, meet state, and
/// division).
pub open spec fn row_well_typed(cells: Seq<JsonValue>) -> bool {
    &&& cells.len() == ROW_LEN
    &&& u32_ok(cells[0])
    &&& u32_ok(cells[1])
    &&& cells[2] is Str
    &&& cells[3] is Str
    &&& opt_str_ok(cells[4])
    &&& opt_str_ok(cells[5])
    &&& opt_str_ok(cells[6])
    &&& opt_str_ok(cells[7])
    &&& cells[8] is Str
    &&& cells[9] is Str
    &&& cells[10] is Str
    &&& opt_str_ok(cells[11])
    &&& cells[12] is Str
    &&& cells[13] is Str
    &&& cells[14] is Str
    &&& cells[15] is Str
    &&& opt_str_ok(cells[16])
    &&& cells[17] is Str
    &&& cells[18] is Str
    &&& cells[19] is Str
    &&& cells[20] is Str
    &&& cells[21] is Str
    &&& cells[22] is Str
    &&& cells[23] is Str
}

/// The record a positional row decodes to: `Some` exactly when the row
/// matches the schema, and then each named field is the value of its fixed
/// slot.
pub open spec fn spec_row_record(cells: Seq<JsonValue>) -> Option<Powerlifter> {
    if row_well_typed(cells) {
        Some(
            Powerlifter {
                sorted_index: spec_u32(cells[0]),
                rank: spec_u32(cells[1]),
                name: cells[2]->Str_0,
                username: cells[3]->Str_0,
                instagram: spec_opt_str(cells[4]),
                color: spec_opt_str(cells[5]),
                lifter_country: spec_opt_str(cells[6]),
                lifter_state: spec_opt_str(cells[7]),
                federation: cells[8]->Str_0,
                date: cells[9]->Str_0,
                meet_country: cells[10]->Str_0,
                meet_state: spec_opt_str(cells[11]),
                path: cells[12]->Str_0,
                sex: cells[13]->Str_0,
                equipment: cells[14]->Str_0,
                age: cells[15]->Str_0,
                division: spec_opt_str(cells[16]),
                bodyweight: cells[17]->Str_0,
                weightclass: cells[18]->Str_0,
                squat: cells[19]->Str_0,
                bench: cells[20]->Str_0,
                deadlift: cells[21]->Str_0,
                total: cells[22]->Str_0,
                points: cells[23]->Str_0,
            },
        )
    } else {
        None
    }
}

/// Read an integer slot.
fn take_u32(v: &JsonValue) -> (r: Option<u32>)
    ensures
        r is Some <==> u32_ok(*v),
        r matches Some(n) ==> n == spec_u32(*v),
{
    match v {
        JsonValue::UInt(n) => {
            if *n <= 0xffff_ffff {
                Some(*n as u32)
            } else {
                None
            }
        },
        _ => None,
    }
}

/// Read a required string slot.
fn take_str(v: &JsonValue) -> (r: Option<String>)
    ensures
        r is Some <==> *v is Str,
        r matches Some(s) ==> s == v->Str_0,
{
    match v {
        JsonValue::Str(s) => Some(s.clone()),
        _ => None,
    }
}

/// Read an optional string slot; `null` decodes to an absent value.
fn take_opt_str(v: &JsonValue) -> (r: Option<Option<String>>)
    ensures
        r is Some <==> opt_str_ok(*v),
        r matches Some(o) ==> o == spec_opt_str(*v),
{
    match v {
        JsonValue::Null => Some(None),
        JsonValue::Str(s) => Some(Some(s.clone())),
        _ => None,
    }
}

impl Powerlifter {
    /// Decode one positional row into a named record.
    ///
    /// Returns `Some` exactly when the row matches the schema of
    /// [`row_well_typed`]; any wrong length, wrong slot shape, or `null` in
    /// a required slot fails the whole row.
    pub fn from_row(cells: &Vec<JsonValue>) -> (r: Option<Powerlifter>)
        ensures
            r == spec_row_record(cells@),
    {
        if cells.len() != ROW_LEN {
            return None;
        }
        let sorted_index = match take_u32(&cells[0]) {
            Some(x) => x,
            None => return None,
        };
        let rank = match take_u32(&cells[1]) {
            Some(x) => x,
            None => return None,
        };
        let name = match take_str(&cells[2]) {
            Some(x) => x,
            None => return None,
        };
        let username = match take_str(&cells[3]) {
            Some(x) => x,
            None => return None,
        };
        let instagram = match take_opt_str(&cells[4]) {
            Some(x) => x,
            None => return None,
        };
        let color = match take_opt_str(&cells[5]) {
            Some(x) => x,
            None => return None,
        };
        let lifter_country = match take_opt_str(&cells[6]) {
            Some(x) => x,
            None => return None,
        };
        let lifter_state = match take_opt_str(&cells[7]) {
            Some(x) => x,
            None => return None,
        };
        let federation = match take_str(&cells[8]) {
            Some(x) => x,
            None => return None,
        };
        let date = match take_str(&cells[9]) {
            Some(x) => x,
            None => return None,
        };
        let meet_country = match take_str(&cells[10]) {
            Some(x) => x,
            None => return None,
        };
        let meet_state = match take_opt_str(&cells[11]) {
            Some(x) => x,
            None => return None,
        };
        let path = match take_str(&cells[12]) {
            Some(x) => x,
            None => return None,
        };
        let sex = match take_str(&cells[13]) {
            Some(x) => x,
            None => return None,
        };
        let equipment = match take_str(&cells[14]) {
            Some(x) => x,
            None => return None,
        };
        let age = match take_str(&cells[15]) {
            Some(x) => x,
            None => return None,
        };
        let division = match take_opt_str(&cells[16]) {
            Some(x) => x,
            None => return None,
        };
        let bodyweight = match take_str(&cells[17]) {
            Some(x) => x,
            None => return None,
        };
        let weightclass = match take_str(&cells[18]) {
            Some(x) => x,
            None => return None,
        };
        let squat = match take_str(&cells[19]) {
            Some(x) => x,
            None => return None,
        };
        let bench = match take_str(&cells[20]) {
            Some(x) => x,
            None => return None,
        };
        let deadlift = match take_str(&cells[21]) {
            Some(x) => x,
            None => return None,
        };
        let total = match take_str(&cells[22]) {
            Some(x) => x,
            None => return None,
        };
        let points = match take_str(&cells[23]) {
            Some(x) => x,
            None => return None,
        };
        Some(
            Powerlifter {
                sorted_index,
                rank,
                name,
                username,
                instagram,
                color,
                lifter_country,
                lifter_state,
                federation,
                date,
                meet_country,
                meet_state,
                path,
                sex,
                equipment,
                age,
                division,
                bodyweight,
                weightclass,
                squat,
                bench,
                deadlift,
                total,
                points,
            },
        )
    }
}

} // verus!
