//! A table of scent intensities per cell and owner, kept in a `hashbrown` hash map.
//!
//! Nothing in this file is proved: each function states what the `hashbrown`
//! method it calls does to the entries of the table.

use crate::ai::scent::{decay_step, decayed};
use vstd::prelude::*;

verus! {

/// A `hashbrown::HashMap` from a cell and the number of an owner to an intensity.
#[verifier::external_body]
pub struct ScentTable {
    table: hashbrown::HashMap<(i32, i32, i32, u64), u32>,
}

/// The entries a `ScentTable` holds: which keys are present, and the intensity at each.
pub uninterp spec fn scent_table_entries(t: ScentTable) -> Map<(i32, i32, i32, u64), u32>;

impl View for ScentTable {
    type V = Map<(i32, i32, i32, u64), u32>;

    open spec fn view(&self) -> Map<(i32, i32, i32, u64), u32> {
        scent_table_entries(*self)
    }
}

impl ScentTable {
    /// `HashMap::new`: a table without entries.
    #[verifier::external_body]
    pub(crate) fn new() -> (t: ScentTable)
        ensures
            scent_table_entries(t) == (Map::<(i32, i32, i32, u64), u32>::empty()),
    {
        ScentTable { table: hashbrown::HashMap::new() }
    }

    /// `HashMap::get`: the intensity stored at `key`, or `None` where the key is absent.
    #[verifier::external_body]
    pub(crate) fn get(&self, key: (i32, i32, i32, u64)) -> (r: Option<u32>)
        ensures
            r == (if scent_table_entries(*self).contains_key(key) {
                Some(scent_table_entries(*self)[key])
            } else {
                None
            }),
    {
        self.table.get(&key).copied()
    }

    /// `HashMap::insert`: afterwards `key` holds `value`, whether or not it was present;
    /// no other entry changes.
    #[verifier::external_body]
    pub(crate) fn insert(&mut self, key: (i32, i32, i32, u64), value: u32)
        ensures
            scent_table_entries(*final(self)) == scent_table_entries(*old(self)).insert(key, value),
    {
        self.table.insert(key, value);
    }

    /// `HashMap::retain` with `decay_step` as the predicate: every entry is handed to
    /// `decay_step` once, keeps what that leaves of its intensity, and is removed where
    /// that returns `false`.
    #[verifier::external_body]
    pub(crate) fn retain_decayed(&mut self, rate: u32)
        ensures
            scent_table_entries(*final(self)) == decayed(scent_table_entries(*old(self)), rate),
    {
        self.table.retain(|_, intensity| decay_step(intensity, rate));
    }
}

} // verus!
