//! A person, compared by name.

use vstd::prelude::*;
use vstd::std_specs::cmp::PartialEqSpecImpl;

verus! {

/// A person. Two persons are the same if their names are.
pub struct Person {
    pub first_name: String,
    pub last_name: String,
    pub age: u16,
    /// Height in millimetres.
    pub height: u32,
}

impl PartialEq for Person {
    fn eq(&self, other: &Self) -> (same: bool) {
        // Naming every field here makes a new field a compile error until
        // it has been considered.
        let Self { first_name, last_name, age: _, height: _ } = self;

        *first_name == other.first_name && *last_name == other.last_name
    }
}

impl PartialEqSpecImpl for Person {
    open spec fn obeys_eq_spec() -> bool {
        true
    }

    open spec fn eq_spec(&self, other: &Self) -> bool {
        self.first_name@ == other.first_name@ && self.last_name@ == other.last_name@
    }
}

} // verus!
