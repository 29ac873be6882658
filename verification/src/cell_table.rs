//! A table from grid cells to unsigned values, kept in a `hashbrown` hash map.
//!
//! Nothing in this file is proved: each function states what the `hashbrown`
//! method it calls does to the entries of the table.

use vstd::prelude::*;

verus! {

/// A `hashbrown::HashMap` from cell keys to `u32` values.
#[verifier::external_body]
pub struct CellTable {
    table: hashbrown::HashMap<(i32, i32, i32), u32>,
}

/// The entries a `CellTable` holds: which keys are present, and the value stored at each.
pub uninterp spec fn cell_table_entries(t: CellTable) -> Map<(i32, i32, i32), u32>;

impl View for CellTable {
    type V = Map<(i32, i32, i32), u32>;

    open spec fn view(&self) -> Map<(i32, i32, i32), u32> {
        cell_table_entries(*self)
    }
}

impl CellTable {
    /// `HashMap::new`: a table without entries.
    #[verifier::external_body]
    pub(crate) fn new() -> (t: CellTable)
        ensures
            cell_table_entries(t) == (Map::<(i32, i32, i32), u32>::empty()),
    {
        CellTable { table: hashbrown::HashMap::new() }
    }

    /// `HashMap::get`: the value stored at `key`, or `None` where the key is absent.
    #[verifier::external_body]
    pub(crate) fn get(&self, key: (i32, i32, i32)) -> (r: Option<u32>)
        ensures
            r == (if cell_table_entries(*self).contains_key(key) {
                Some(cell_table_entries(*self)[key])
            } else {
                None
            }),
    {
        self.table.get(&key).copied()
    }

    /// `HashMap::insert`: afterwards `key` holds `value`, whether or not it was present;
    /// no other entry changes.
    #[verifier::external_body]
    pub(crate) fn insert(&mut self, key: (i32, i32, i32), value: u32)
        ensures
            cell_table_entries(*final(self)) == cell_table_entries(*old(self)).insert(key, value),
    {
        self.table.insert(key, value);
    }

    /// `HashMap::remove`: afterwards `key` is absent; no other entry changes.
    #[verifier::external_body]
    pub(crate) fn remove(&mut self, key: (i32, i32, i32))
        ensures
            cell_table_entries(*final(self)) == cell_table_entries(*old(self)).remove(key),
    {
        self.table.remove(&key);
    }

    /// `HashMap::clear`: afterwards the table has no entries.
    #[verifier::external_body]
    pub(crate) fn clear(&mut self)
        ensures
            cell_table_entries(*final(self)) == (Map::<(i32, i32, i32), u32>::empty()),
    {
        self.table.clear();
    }

    /// `HashMap::iter`, collected: every entry exactly once, in an order that is not
    /// specified.
    #[verifier::external_body]
    pub(crate) fn entries(&self) -> (v: Vec<((i32, i32, i32), u32)>)
        ensures
            forall|i: int|
                0 <= i < v@.len() ==> cell_table_entries(*self).contains_key(#[trigger] v@[i].0)
                    && cell_table_entries(*self)[v@[i].0] == v@[i].1,
            forall|k: (i32, i32, i32)|
                cell_table_entries(*self).contains_key(k) ==> exists|i: int|
                    0 <= i < v@.len() && #[trigger] v@[i].0 == k,
            forall|i: int, j: int| 0 <= i < j < v@.len() ==> #[trigger] v@[i].0 != #[trigger] v@[j].0,
    {
        self.table.iter().map(|(k, v)| (*k, *v)).collect()
    }
}

} // verus!
