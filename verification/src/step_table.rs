//! A table from grid cells to steps, kept in a `hashbrown` hash map.
//!
//! Nothing in this file is proved: each function states what the `hashbrown`
//! method it calls does to the entries of the table.

use vstd::prelude::*;

verus! {

/// A `hashbrown::HashMap` from cell keys to steps, each a triple of offsets.
#[verifier::external_body]
pub struct StepTable {
    table: hashbrown::HashMap<(i32, i32, i32), (i32, i32, i32)>,
}

/// The entries a `StepTable` holds: which keys are present, and the step stored at each.
pub uninterp spec fn step_table_entries(t: StepTable) -> Map<(i32, i32, i32), (i32, i32, i32)>;

impl View for StepTable {
    type V = Map<(i32, i32, i32), (i32, i32, i32)>;

    open spec fn view(&self) -> Map<(i32, i32, i32), (i32, i32, i32)> {
        step_table_entries(*self)
    }
}

impl StepTable {
    /// `HashMap::new`: a table without entries.
    #[verifier::external_body]
    pub(crate) fn new() -> (t: StepTable)
        ensures
            step_table_entries(t) == (Map::<(i32, i32, i32), (i32, i32, i32)>::empty()),
    {
        StepTable { table: hashbrown::HashMap::new() }
    }

    /// `HashMap::get`: the step stored at `key`, or `None` where the key is absent.
    #[verifier::external_body]
    pub(crate) fn get(&self, key: (i32, i32, i32)) -> (r: Option<(i32, i32, i32)>)
        ensures
            r == (if step_table_entries(*self).contains_key(key) {
                Some(step_table_entries(*self)[key])
            } else {
                None
            }),
    {
        self.table.get(&key).copied()
    }

    /// `HashMap::insert`: afterwards `key` holds `step`, whether or not it was present;
    /// no other entry changes.
    #[verifier::external_body]
    pub(crate) fn insert(&mut self, key: (i32, i32, i32), step: (i32, i32, i32))
        ensures
            step_table_entries(*final(self)) == step_table_entries(*old(self)).insert(key, step),
    {
        self.table.insert(key, step);
    }
}

} // verus!
