//! Swarm leaders: the only agents that decide anything.
//!
//! A leader that seeks a target first looks for an unclaimed breach nearby, then for
//! the most valuable target within range, and otherwise keeps seeking.

use crate::flow::breach::{is_nearest_unclaimed, BreachPoint, BreachPoints};
use crate::flow::target::{is_best_target, TargetField};
use crate::handle::Handle;
use crate::position::{axis_gap, gap, Position};
use vstd::prelude::*;

verus! {

/// How near a breach must be, on each horizontal axis, for a seeking leader to go for it.
pub const BREACH_REACH: u64 = 10;

/// The half-width of the box in which a seeking leader looks for targets.
pub const TARGET_RANGE: i32 = 50;

/// What a leader is doing.
#[derive(Clone, Copy, Debug, PartialEq, Eq, Structural)]
pub enum LeaderState {
    /// Looking for a breach or a wall to attack.
    Seeking,
    /// Leading its followers against `target`.
    Assaulting { target: Position },
    /// Sending troops to another leader.
    Reinforcing { ally: Handle },
    /// Opening a new breach at `target`.
    Creating { target: Position },
    /// Falling back.
    Retreating,
}

impl Default for LeaderState {
    fn default() -> (s: LeaderState)
        ensures
            s == LeaderState::Seeking,
    {
        LeaderState::Seeking
    }
}

/// A leader of a swarm.
#[derive(Clone, Copy, Debug, PartialEq, Eq, Structural)]
pub struct SwarmLeader {
    pub follower_count: u32,
    pub max_followers: u32,
    pub claimed_breach: Option<Handle>,
    pub state: LeaderState,
}

/// Whether a breach at `breach` is near enough to `pos` for a seeking leader: within
/// `BREACH_REACH` on both horizontal axes. The layer does not count.
pub open spec fn breach_in_reach(breach: Position, pos: Position) -> bool {
    axis_gap(breach.x as int, pos.x as int) <= BREACH_REACH && axis_gap(
        breach.y as int,
        pos.y as int,
    ) <= BREACH_REACH
}

/// What a leader in `state` at `pos` does next, given the nearest unclaimed breach and
/// the best target in range, where there are any. Only a seeking leader changes its
/// mind: it assaults the breach if that is in reach, else the target if there is one.
pub open spec fn chosen(
    state: LeaderState,
    pos: Position,
    breach: Option<Position>,
    target: Option<Position>,
) -> LeaderState {
    if state is Seeking {
        if breach.is_some() && breach_in_reach(breach.unwrap(), pos) {
            LeaderState::Assaulting { target: breach.unwrap() }
        } else if target.is_some() {
            LeaderState::Assaulting { target: target.unwrap() }
        } else {
            state
        }
    } else {
        state
    }
}

/// Whether `breach` is what the registry answers a leader at `pos`: the cell of the
/// nearest unclaimed breach, or nothing where every breach is claimed.
pub open spec fn breach_answer(points: Seq<BreachPoint>, pos: Position, breach: Option<Position>) -> bool {
    match breach {
        None => forall|i: int| 0 <= i < points.len() ==> (#[trigger] points[i]).claimed_by.is_some(),
        Some(p) => exists|i: int|
            is_nearest_unclaimed(points, pos, i) && (#[trigger] points[i]).position == p,
    }
}

/// Whether `target` is what the target field answers a leader at `pos`: the best
/// target within `TARGET_RANGE`, or nothing where no target lies in range.
pub open spec fn target_answer(
    values: Map<(i32, i32, i32), u32>,
    pos: Position,
    target: Option<Position>,
) -> bool {
    match target {
        None => forall|k: (i32, i32, i32)| #[trigger]
            values.contains_key(k) ==> !Position::of_key(k).in_box(pos, TARGET_RANGE as int),
        Some(p) => is_best_target(values, pos, TARGET_RANGE as int, p),
    }
}

/// The next state of a leader, from what the registry and the target field answered.
pub fn choose_state(
    state: LeaderState,
    pos: Position,
    breach: Option<Position>,
    target: Option<Position>,
) -> (next: LeaderState)
    ensures
        next == chosen(state, pos, breach, target),
{
    match state {
        LeaderState::Seeking => {
            if let Some(b) = breach {
                if gap(b.x, pos.x) <= BREACH_REACH && gap(b.y, pos.y) <= BREACH_REACH {
                    return LeaderState::Assaulting { target: b };
                }
            }
            if let Some(t) = target {
                return LeaderState::Assaulting { target: t };
            }
            state
        },
        _ => state,
    }
}

impl SwarmLeader {
    /// A seeking leader without followers or claim.
    pub fn new(max_followers: u32) -> (leader: SwarmLeader)
        ensures
            leader == (SwarmLeader {
                follower_count: 0,
                max_followers,
                claimed_breach: None,
                state: LeaderState::Seeking,
            }),
    {
        SwarmLeader {
            follower_count: 0,
            max_followers,
            claimed_breach: None,
            state: LeaderState::Seeking,
        }
    }

    /// Whether the leader is down to less than half of its followers.
    pub fn needs_reinforcements(&self) -> (b: bool)
        ensures
            b == (self.follower_count < self.max_followers / 2),
    {
        self.follower_count < self.max_followers / 2
    }

    /// Whether the leader has more than three quarters of its followers.
    pub fn can_spare_troops(&self) -> (b: bool)
        ensures
            b == (self.follower_count > (self.max_followers * 3) / 4),
    {
        self.follower_count as u64 > (self.max_followers as u64 * 3) / 4
    }

    /// One decision of a leader that stands at `pos`. The leader asks the registry for
    /// the nearest unclaimed breach and the target field for the best target in range,
    /// and goes where `chosen` says. Nothing but its state changes.
    pub fn decide(&mut self, pos: Position, breaches: &BreachPoints, targets: &TargetField)
        ensures
            exists|breach: Option<Position>, target: Option<Position>|
                breach_answer(breaches@, pos, breach) && target_answer(targets@, pos, target)
                    && final(self).state == #[trigger] chosen(old(self).state, pos, breach, target),
            final(self).follower_count == old(self).follower_count,
            final(self).max_followers == old(self).max_followers,
            final(self).claimed_breach == old(self).claimed_breach,
    {
        let breach = match breaches.nearest_unclaimed(pos) {
            Some(b) => Some(b.position),
            None => None,
        };
        let target = match targets.highest_value_target(pos, TARGET_RANGE) {
            Some((t, _)) => Some(t),
            None => None,
        };
        assert(breach_answer(breaches@, pos, breach));
        assert(target_answer(targets@, pos, target));
        self.state = choose_state(self.state, pos, breach, target);
    }
}

} // verus!
