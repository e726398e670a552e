//! Reading a struct by the names of its fields.

use std::collections::HashMap;
use vstd::prelude::*;

verus! {

/// A struct that can hand out each of its fields under the field's name.
pub trait TryToHashMap {
    /// What a field is handed out as.
    type Field<'a> where Self: 'a;

    /// A map from the name of each field to the field.
    fn try_to_hashmap<'a>(&'a self) -> HashMap<&'a str, Self::Field<'a>>;
}

} // verus!
