//! The encounter's phase state machine: whose action is currently valid.

use vstd::prelude::*;

verus! {

/// Authoritative phase of an encounter. `EnemyTurn` carries whether the
/// enemy's decision has already been made this turn, so the AI fires its
/// transition logic exactly once per turn even while the phase is polled
/// every frame.
#[derive(Clone, Copy, Debug, PartialEq, Eq, Hash, Structural)]
pub enum CombatState {
    PlayerTurn,
    PlayerAttack,
    EnemyTurn(bool),
    EnemyAttack,
    Reward,
    Exiting,
}

/// Entering an encounter forces the phase back to the player's turn,
/// whatever a prior encounter left behind.
pub fn set_starting_state(_prior: CombatState) -> (state: CombatState)
    ensures
        state == CombatState::PlayerTurn,
{
    CombatState::PlayerTurn
}

/// While the reward screen is up, a confirm press ends the encounter: the
/// phase moves to `Exiting` and the caller triggers the scene fadeout.
/// Any other frame leaves the phase alone.
pub fn handle_accepting_reward(state: CombatState, confirm: bool) -> (next: Option<CombatState>)
    ensures
        next == (if state == CombatState::Reward && confirm {
            Some(CombatState::Exiting)
        } else {
            None::<CombatState>
        }),
{
    if confirm {
        match state {
            CombatState::Reward => Some(CombatState::Exiting),
            _ => None,
        }
    } else {
        None
    }
}

} // verus!
