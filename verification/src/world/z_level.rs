//! Which layer of the world is being looked at.

use vstd::prelude::*;

verus! {

/// The layer in view.
#[derive(Clone, Copy, Debug, PartialEq, Eq, Structural)]
pub struct CurrentZLevel {
    pub level: i32,
}

impl CurrentZLevel {
    /// The layer one below `level`; the lowest layer has none below it.
    pub open spec fn below(level: i32) -> i32 {
        if level == i32::MIN {
            level
        } else {
            (level - 1) as i32
        }
    }

    /// The layer one above `level`; the highest layer has none above it.
    pub open spec fn above(level: i32) -> i32 {
        if level == i32::MAX {
            level
        } else {
            (level + 1) as i32
        }
    }

    /// Moves the view one layer down.
    pub fn descend(&mut self)
        ensures
            final(self).level == CurrentZLevel::below(old(self).level),
    {
        if self.level > i32::MIN {
            self.level = self.level - 1;
        }
    }

    /// Moves the view one layer up.
    pub fn ascend(&mut self)
        ensures
            final(self).level == CurrentZLevel::above(old(self).level),
    {
        if self.level < i32::MAX {
            self.level = self.level + 1;
        }
    }
}

impl Default for CurrentZLevel {
    fn default() -> (z: CurrentZLevel)
        ensures
            z.level == 0,
    {
        CurrentZLevel { level: 0 }
    }
}

} // verus!
