//! What the player's keys do.

use crate::player::building::{BuildMode, BuildableType};
use crate::world::z_level::CurrentZLevel;
use vstd::prelude::*;

verus! {

/// A key that means something to the game.
#[derive(Clone, Copy, Debug, PartialEq, Eq, Structural)]
pub enum PlayerKey {
    /// Switches building on or off.
    ToggleBuild,
    /// Chooses what to build.
    Select(BuildableType),
    /// Moves the view one layer down.
    LayerDown,
    /// Moves the view one layer up.
    LayerUp,
}

/// The build mode after `key`. Choosing what to build works only while building.
pub open spec fn mode_after(mode: BuildMode, key: PlayerKey) -> BuildMode {
    match key {
        PlayerKey::ToggleBuild => BuildMode { active: !mode.active, ..mode },
        PlayerKey::Select(buildable) => if mode.active {
            BuildMode { selected: buildable, ..mode }
        } else {
            mode
        },
        _ => mode,
    }
}

/// The layer in view after `key`.
pub open spec fn level_after(level: i32, key: PlayerKey) -> i32 {
    match key {
        PlayerKey::LayerDown => CurrentZLevel::below(level),
        PlayerKey::LayerUp => CurrentZLevel::above(level),
        _ => level,
    }
}

/// Applies one key.
pub fn handle_key(build_mode: &mut BuildMode, current_z: &mut CurrentZLevel, key: PlayerKey)
    ensures
        *final(build_mode) == mode_after(*old(build_mode), key),
        final(current_z).level == level_after(old(current_z).level, key),
{
    match key {
        PlayerKey::ToggleBuild => {
            build_mode.active = !build_mode.active;
        },
        PlayerKey::Select(buildable) => {
            if build_mode.active {
                build_mode.selected = buildable;
            }
        },
        PlayerKey::LayerDown => {
            current_z.descend();
        },
        PlayerKey::LayerUp => {
            current_z.ascend();
        },
    }
}

} // verus!
