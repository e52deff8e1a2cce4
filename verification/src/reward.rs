//! The experience reward table and the end-of-encounter reward step.

use vstd::prelude::*;
use crate::enemy::EnemyType;

verus! {

/// Experience awarded for defeating each archetype.
pub open spec fn reward_spec(enemy_type: EnemyType) -> int {
    match enemy_type {
        EnemyType::Bat => 10,
        EnemyType::Specter => 30,
    }
}

/// Look up the experience reward for a defeated enemy.
pub fn reward_for(enemy_type: EnemyType) -> (exp: isize)
    ensures
        exp == reward_spec(enemy_type),
        exp > 0,
{
    match enemy_type {
        EnemyType::Bat => 10,
        EnemyType::Specter => 30,
    }
}

/// What the reward screen shows after a win: the experience earned, and
/// whether the player's progression rule reported a level-up when fed that
/// experience. The progression rule itself lives with the player, outside
/// this library; only its boolean answer flows back in.
#[derive(Clone, Copy, Debug, PartialEq, Eq, Structural)]
pub struct RewardOutcome {
    pub exp_earned: isize,
    pub leveled_up: bool,
}

/// Assemble the reward of a won encounter from the defeated archetype and
/// the progression rule's level-up answer.
pub fn give_reward(enemy_type: EnemyType, leveled_up: bool) -> (outcome: RewardOutcome)
    ensures
        outcome.exp_earned == reward_spec(enemy_type),
        outcome.leveled_up == leveled_up,
{
    RewardOutcome { exp_earned: reward_for(enemy_type), leveled_up }
}

} // verus!
