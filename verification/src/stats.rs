//! Combatant stats and the two operations that may mutate them:
//! damage resolution and mana spending.

use vstd::prelude::*;

verus! {

/// Health, mana, attack and defense of one combatant (player or enemy).
#[derive(Clone, Copy, Debug, PartialEq, Eq, Structural)]
pub struct CombatStats {
    pub health: isize,
    pub max_health: isize,
    pub mana: isize,
    pub max_mana: isize,
    pub attack: isize,
    pub defense: isize,
}

/// The damage rule: health drops by `raw_amount - defense`, clamped at zero.
/// A defense larger than the incoming amount heals: the difference is negative
/// and health rises. That is the literal rule, kept on purpose.
pub open spec fn damage_result(health: int, raw_amount: int, defense: int) -> int {
    vstd::math::max(health - (raw_amount - defense), 0)
}

impl CombatStats {
    /// The stats invariant: health and mana sit inside their maxima.
    pub open spec fn wf(self) -> bool {
        &&& 0 <= self.health <= self.max_health
        &&& 0 <= self.mana <= self.max_mana
    }

    /// Resolve one hit of `raw_amount` against these stats and return the new
    /// health, computed by `damage_result` with this combatant's own defense.
    pub fn apply_damage(&mut self, raw_amount: isize) -> (new_health: isize)
        requires
            isize::MIN <= raw_amount - old(self).defense <= isize::MAX,
            isize::MIN <= old(self).health - (raw_amount - old(self).defense) <= isize::MAX,
        ensures
            final(self).health == damage_result(
                old(self).health as int,
                raw_amount as int,
                old(self).defense as int,
            ),
            new_health == final(self).health,
            final(self).max_health == old(self).max_health,
            final(self).mana == old(self).mana,
            final(self).max_mana == old(self).max_mana,
            final(self).attack == old(self).attack,
            final(self).defense == old(self).defense,
    {
        let effective: isize = raw_amount - self.defense;
        let dropped: isize = self.health - effective;
        self.health = if dropped > 0 { dropped } else { 0 };
        self.health
    }

    /// Spend `cost` mana. The spend succeeds only when there is mana at all
    /// and enough of it to pay; otherwise the stats stay untouched and the
    /// caller must suppress the action it was about to take.
    pub fn spend_mana(&mut self, cost: isize) -> (spent: bool)
        requires
            old(self).wf(),
            0 <= cost,
        ensures
            spent == (old(self).mana > 0 && cost <= old(self).mana),
            spent ==> final(self).mana == old(self).mana - cost,
            !spent ==> final(self).mana == old(self).mana,
            final(self).health == old(self).health,
            final(self).max_health == old(self).max_health,
            final(self).max_mana == old(self).max_mana,
            final(self).attack == old(self).attack,
            final(self).defense == old(self).defense,
            final(self).wf(),
    {
        if self.mana > 0 && cost <= self.mana {
            self.mana = self.mana - cost;
            true
        } else {
            false
        }
    }
}

/// Law: damage resolution never drives health below zero, and, whenever the
/// incoming amount is at least the defense, never above the prior health and
/// so never above `max_health`. (With `defense > raw_amount` the rule heals,
/// and health may pass `max_health`: that case is excluded below.)
pub proof fn lemma_damage_result_bounds(health: int, max_health: int, raw_amount: int, defense: int)
    requires
        0 <= health <= max_health,
    ensures
        0 <= damage_result(health, raw_amount, defense),
        defense <= raw_amount ==> damage_result(health, raw_amount, defense) <= health,
        defense <= raw_amount ==> damage_result(health, raw_amount, defense) <= max_health,
{
}

} // verus!
