//! A table of counts per small number, kept in a `hashbrown` hash map.
//!
//! Nothing in this file is proved: each function states what the `hashbrown`
//! method it calls does to the entries of the table.

use vstd::prelude::*;

verus! {

/// A `hashbrown::HashMap` from `u8` keys to `u32` counts.
#[verifier::external_body]
pub struct CountTable {
    table: hashbrown::HashMap<u8, u32>,
}

/// The entries a `CountTable` holds: which keys are present, and the count at each.
pub uninterp spec fn count_table_entries(t: CountTable) -> Map<u8, u32>;

impl View for CountTable {
    type V = Map<u8, u32>;

    open spec fn view(&self) -> Map<u8, u32> {
        count_table_entries(*self)
    }
}

impl CountTable {
    /// `HashMap::new`: a table without entries.
    #[verifier::external_body]
    pub(crate) fn new() -> (t: CountTable)
        ensures
            count_table_entries(t) == (Map::<u8, u32>::empty()),
    {
        CountTable { table: hashbrown::HashMap::new() }
    }

    /// `HashMap::get`: the count stored at `key`, or `None` where the key is absent.
    #[verifier::external_body]
    pub(crate) fn get(&self, key: u8) -> (r: Option<u32>)
        ensures
            r == (if count_table_entries(*self).contains_key(key) {
                Some(count_table_entries(*self)[key])
            } else {
                None
            }),
    {
        self.table.get(&key).copied()
    }

    /// `HashMap::insert`: afterwards `key` holds `count`, whether or not it was present;
    /// no other entry changes.
    #[verifier::external_body]
    pub(crate) fn insert(&mut self, key: u8, count: u32)
        ensures
            count_table_entries(*final(self)) == count_table_entries(*old(self)).insert(key, count),
    {
        self.table.insert(key, count);
    }
}

} // verus!
