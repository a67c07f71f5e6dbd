//! A JSON value as the AnkiConnect server sends it, held as plain values,
//! with key lookup in objects.

use vstd::prelude::*;

pub use crate::keyed::{get, lookup, lookup_from};

verus! {

/// A JSON value. An object keeps its members in the order the reply lists
/// them.
pub enum JsonValue {
    Null,
    Bool(bool),
    /// A number: `Some` of its value when it is an integer in the range of
    /// `i64` (`None` for a fraction, or an integer beyond that range), and
    /// the number as the reply writes it.
    Number(Option<i64>, String),
    Str(String),
    Array(Vec<JsonValue>),
    Object(Vec<(String, JsonValue)>),
}

/// The members of an object have distinct keys.
pub open spec fn keys_distinct(members: Seq<(String, JsonValue)>) -> bool {
    forall|i: int, j: int| 0 <= i < members.len() && 0 <= j < members.len() && i != j
        ==> members[i].0@ != members[j].0@
}

} // verus!
