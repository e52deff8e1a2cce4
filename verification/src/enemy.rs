//! Enemy archetypes: their fixed stat templates and the coin flip that
//! picks one at encounter start.

use vstd::prelude::*;
use crate::stats::CombatStats;

verus! {

/// The two enemy archetypes an encounter can present.
#[derive(Clone, Copy, Debug, PartialEq, Eq, Structural)]
pub enum EnemyType {
    Bat,
    Specter,
}

/// The enemy of the current encounter.
#[derive(Clone, Copy, Debug, PartialEq, Eq, Structural)]
pub struct Enemy {
    pub enemy_type: EnemyType,
}

/// The fixed stat template of each archetype.
pub open spec fn enemy_stats_spec(enemy_type: EnemyType) -> CombatStats {
    match enemy_type {
        EnemyType::Bat => CombatStats {
            health: 3,
            max_health: 3,
            mana: 0,
            max_mana: 0,
            attack: 2,
            defense: 1,
        },
        EnemyType::Specter => CombatStats {
            health: 5,
            max_health: 5,
            mana: 0,
            max_mana: 0,
            attack: 3,
            defense: 2,
        },
    }
}

/// Fresh stats for an enemy of the given archetype.
pub fn enemy_stats_for(enemy_type: EnemyType) -> (stats: CombatStats)
    ensures
        stats == enemy_stats_spec(enemy_type),
        stats.wf(),
{
    match enemy_type {
        EnemyType::Bat => CombatStats {
            health: 3,
            max_health: 3,
            mana: 0,
            max_mana: 0,
            attack: 2,
            defense: 1,
        },
        EnemyType::Specter => CombatStats {
            health: 5,
            max_health: 5,
            mana: 0,
            max_mana: 0,
            attack: 3,
            defense: 2,
        },
    }
}

/// Relies on rand::random: draws a value of the standard distribution from
/// the thread-local generator; for `bool` that is a fair coin. Nothing can
/// be promised of the outcome.
pub assume_specification<T>[ rand::random::<T> ]() -> (r: T)
    where
        rand::distributions::Standard: rand::distributions::Distribution<T>,
;

/// The archetype each side of the encounter-start coin maps to: an even
/// split between the two, not a general weighted table.
pub fn archetype_for_coin(heads: bool) -> (enemy_type: EnemyType)
    ensures
        enemy_type == (if heads {
            EnemyType::Bat
        } else {
            EnemyType::Specter
        }),
{
    if heads {
        EnemyType::Bat
    } else {
        EnemyType::Specter
    }
}

/// Roll a fresh enemy for a new encounter. Which archetype comes out is
/// random; whatever it is, the stats are that archetype's template.
pub fn spawn_enemy() -> (spawned: (Enemy, CombatStats))
    ensures
        spawned.1 == enemy_stats_spec(spawned.0.enemy_type),
        spawned.1.wf(),
{
    let heads: bool = rand::random::<bool>();
    let enemy_type = archetype_for_coin(heads);
    let stats = enemy_stats_for(enemy_type);
    (Enemy { enemy_type }, stats)
}

} // verus!
