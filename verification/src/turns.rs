//! Turn logic: player input during the player's turn, the per-frame enemy
//! decision, and the resolver that applies an attack intent to its target.

use vstd::prelude::*;
use crate::events::{AttackType, FightEvent};
use crate::menu::{cycle_spec, CombatMenuOption, CombatMenuSelection};
use crate::phase::CombatState;
use crate::stats::{damage_result, CombatStats};

verus! {

/// Mana cost of a magic attack.
pub const MAGIC_MANA_COST: isize = 1;

/// Damage a generic magic attack requests, before the target's defense.
pub const MAGIC_DAMAGE: isize = 4;

/// One tick's worth of edge-triggered input: each flag is true only on the
/// tick its key went from released to pressed.
#[derive(Clone, Copy, Debug, PartialEq, Eq, Structural)]
pub struct InputFrame {
    pub cycle_left: bool,
    pub cycle_right: bool,
    pub confirm: bool,
}

/// What one frame of player input decides: nothing, an attack intent to
/// queue, or fleeing the encounter.
#[derive(Clone, Copy, Debug, PartialEq, Eq, Structural)]
pub enum CombatAction {
    Wait,
    Fight(FightEvent),
    Flee,
}

/// The menu option highlighted once a frame's direction presses are applied.
pub open spec fn input_selection(menu: CombatMenuSelection, input: InputFrame) -> CombatMenuOption {
    cycle_spec(menu.selected, input.cycle_left, input.cycle_right)
}

/// The action a frame decides, given the option it ends on and the player's
/// stats. A magic attack with no mana is suppressed: no intent is emitted.
pub open spec fn input_action(
    selected: CombatMenuOption,
    stats: CombatStats,
    enemy_target: u64,
    input: InputFrame,
) -> CombatAction {
    if !input.confirm {
        CombatAction::Wait
    } else {
        match selected {
            CombatMenuOption::Attack => CombatAction::Fight(
                FightEvent {
                    target: enemy_target,
                    attack_type: AttackType::Standard,
                    damage_amount: stats.attack,
                    next_state: CombatState::PlayerAttack,
                },
            ),
            CombatMenuOption::MagicAttack => if stats.mana > 0 {
                CombatAction::Fight(
                    FightEvent {
                        target: enemy_target,
                        attack_type: AttackType::MagicGeneric,
                        damage_amount: MAGIC_DAMAGE,
                        next_state: CombatState::PlayerAttack,
                    },
                )
            } else {
                CombatAction::Wait
            },
            CombatMenuOption::Run => CombatAction::Flee,
        }
    }
}

/// The player's stats after a frame: one mana is paid exactly when a magic
/// attack is confirmed with mana available, and nothing else changes.
pub open spec fn input_stats(
    selected: CombatMenuOption,
    stats: CombatStats,
    input: InputFrame,
) -> CombatStats {
    if input.confirm && selected == CombatMenuOption::MagicAttack && stats.mana > 0 {
        CombatStats { mana: (stats.mana - MAGIC_MANA_COST) as isize, ..stats }
    } else {
        stats
    }
}

/// One frame of player input. Outside the player's turn it is ignored
/// entirely; during it, the direction presses move the menu highlight, and a
/// confirm press decides the highlighted action: a standard attack with the
/// player's attack value, a magic attack that costs one mana (suppressed at
/// zero mana), or fleeing. Phase changes are not made here: an attack intent
/// carries the phase the resolver should move to.
pub fn combat_input(
    state: CombatState,
    menu: &mut CombatMenuSelection,
    player_stats: &mut CombatStats,
    enemy_target: u64,
    input: InputFrame,
) -> (action: CombatAction)
    requires
        old(player_stats).wf(),
    ensures
        state != CombatState::PlayerTurn ==> {
            &&& *final(menu) == *old(menu)
            &&& *final(player_stats) == *old(player_stats)
            &&& action == CombatAction::Wait
        },
        state == CombatState::PlayerTurn ==> {
            let selected = input_selection(*old(menu), input);
            &&& final(menu).selected == selected
            &&& *final(player_stats) == input_stats(selected, *old(player_stats), input)
            &&& action == input_action(selected, *old(player_stats), enemy_target, input)
        },
        final(player_stats).wf(),
{
    if state != CombatState::PlayerTurn {
        return CombatAction::Wait;
    }
    menu.cycle(input.cycle_left, input.cycle_right);
    if !input.confirm {
        return CombatAction::Wait;
    }
    match menu.selected {
        CombatMenuOption::Attack => CombatAction::Fight(
            FightEvent {
                target: enemy_target,
                attack_type: AttackType::Standard,
                damage_amount: player_stats.attack,
                next_state: CombatState::PlayerAttack,
            },
        ),
        CombatMenuOption::MagicAttack => {
            if player_stats.spend_mana(MAGIC_MANA_COST) {
                CombatAction::Fight(
                    FightEvent {
                        target: enemy_target,
                        attack_type: AttackType::MagicGeneric,
                        damage_amount: MAGIC_DAMAGE,
                        next_state: CombatState::PlayerAttack,
                    },
                )
            } else {
                CombatAction::Wait
            }
        },
        CombatMenuOption::Run => CombatAction::Flee,
    }
}

/// The attack intent an enemy decision produces: a standard attack on the
/// player with the enemy's attack value, resolving into the enemy's
/// attack-animation phase.
pub open spec fn enemy_fight_event(enemy_stats: CombatStats, player_target: u64) -> FightEvent {
    FightEvent {
        target: player_target,
        attack_type: AttackType::Standard,
        damage_amount: enemy_stats.attack,
        next_state: CombatState::EnemyAttack,
    }
}

/// Whether an enemy-turn tick in this phase makes the enemy's decision:
/// only in `EnemyTurn(false)`, where the decision is still pending.
pub open spec fn enemy_turn_emits(state: CombatState) -> bool {
    state == CombatState::EnemyTurn(false)
}

/// The phase after an enemy-turn tick: a pending decision is marked made;
/// every other phase is left alone.
pub open spec fn enemy_turn_next(state: CombatState) -> CombatState {
    if enemy_turn_emits(state) {
        CombatState::EnemyTurn(true)
    } else {
        state
    }
}

/// One per-frame enemy tick. With the decision pending it emits exactly one
/// attack intent against the player and flips the phase to `EnemyTurn(true)`,
/// so the frames that follow, still inside the enemy's turn, emit nothing.
pub fn process_enemy_turn(
    state: CombatState,
    enemy_stats: &CombatStats,
    player_target: u64,
) -> (tick: (Option<FightEvent>, CombatState))
    ensures
        tick.1 == enemy_turn_next(state),
        enemy_turn_emits(state) ==> tick.0 == Some(enemy_fight_event(*enemy_stats, player_target)),
        !enemy_turn_emits(state) ==> tick.0 is None,
{
    match state {
        CombatState::EnemyTurn(false) => (
            Some(
                FightEvent {
                    target: player_target,
                    attack_type: AttackType::Standard,
                    damage_amount: enemy_stats.attack,
                    next_state: CombatState::EnemyAttack,
                },
            ),
            CombatState::EnemyTurn(true),
        ),
        _ => (None, state),
    }
}

/// Resolve one attack intent against its target: the damage rule mutates the
/// target's health, and the phase moves to `Reward` when the target is left
/// at zero health, else to the phase the intent asked for.
pub fn combat_damage_calc(event: &FightEvent, target_stats: &mut CombatStats) -> (next: CombatState)
    requires
        isize::MIN <= event.damage_amount - old(target_stats).defense <= isize::MAX,
        isize::MIN <= old(target_stats).health - (event.damage_amount - old(target_stats).defense)
            <= isize::MAX,
    ensures
        final(target_stats).health == damage_result(
            old(target_stats).health as int,
            event.damage_amount as int,
            old(target_stats).defense as int,
        ),
        final(target_stats).max_health == old(target_stats).max_health,
        final(target_stats).mana == old(target_stats).mana,
        final(target_stats).max_mana == old(target_stats).max_mana,
        final(target_stats).attack == old(target_stats).attack,
        final(target_stats).defense == old(target_stats).defense,
        next == (if final(target_stats).health == 0 {
            CombatState::Reward
        } else {
            event.next_state
        }),
        old(target_stats).wf() && event.damage_amount >= old(target_stats).defense
            ==> final(target_stats).wf(),
{
    let new_health = target_stats.apply_damage(event.damage_amount);
    if new_health == 0 {
        CombatState::Reward
    } else {
        event.next_state
    }
}

/// Law: a magic-attack confirm with no mana is suppressed in full — the
/// stats stay as they were and no attack intent is produced.
pub proof fn lemma_magic_without_mana_suppressed(
    stats: CombatStats,
    enemy_target: u64,
    input: InputFrame,
)
    requires
        stats.mana == 0,
    ensures
        input_stats(CombatMenuOption::MagicAttack, stats, input) == stats,
        !(input_action(CombatMenuOption::MagicAttack, stats, enemy_target, input)
            is Fight),
{
}

/// Law: the enemy decides once per turn. A pending enemy turn emits, the
/// phase it produces does not, and ticking that phase again changes nothing.
pub proof fn lemma_enemy_decides_once(state: CombatState)
    requires
        enemy_turn_emits(state),
    ensures
        !enemy_turn_emits(enemy_turn_next(state)),
        enemy_turn_next(enemy_turn_next(state)) == enemy_turn_next(state),
{
}

} // verus!
