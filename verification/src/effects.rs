//! Attack-effect timing. A repeating millisecond countdown paces the attack
//! animation: while it runs during the player's attack, the target's sprite
//! flashes on a sub-interval; when it completes, visibility is restored and
//! the phase advances. A one-shot variant times short-lived effect sprites.

use vstd::prelude::*;
use crate::phase::CombatState;

verus! {

/// The repeating attack-animation timer, in whole milliseconds, together
/// with the flash sub-interval. `elapsed_ms` always sits strictly inside the
/// period: completion wraps it around.
#[derive(Clone, Copy, Debug, PartialEq, Eq, Structural)]
pub struct AttackEffects {
    pub elapsed_ms: u32,
    pub period_ms: u32,
    pub flash_period_ms: u32,
}

/// What one frame of effect handling decides: whether the target's sprite
/// must be shown or hidden this frame (nothing, when the frame has no say on
/// it), and the phase to advance to when the animation just finished.
#[derive(Clone, Copy, Debug, PartialEq, Eq, Structural)]
pub struct EffectFrame {
    pub visibility: Option<bool>,
    pub next_state: Option<CombatState>,
}

/// The flash rule: within each flash sub-interval the sprite is hidden for
/// the later half and shown otherwise.
pub open spec fn flash_visible(elapsed: int, flash_period: int) -> bool {
    !(elapsed % flash_period > flash_period / 2)
}

/// The phase that follows a finished attack animation: the player's attack
/// hands the turn to the enemy (decision pending); any other attack phase
/// returns to the player's turn.
pub open spec fn after_attack_state(state: CombatState) -> CombatState {
    if state == CombatState::PlayerAttack {
        CombatState::EnemyTurn(false)
    } else {
        CombatState::PlayerTurn
    }
}

impl AttackEffects {
    /// The timer invariant: both intervals are positive and the elapsed time
    /// has wrapped below the period.
    pub open spec fn wf(self) -> bool {
        &&& 0 < self.period_ms
        &&& 0 < self.flash_period_ms
        &&& self.elapsed_ms < self.period_ms
    }

    /// A fresh timer at the start of its period.
    pub fn new(period_ms: u32, flash_period_ms: u32) -> (fx: AttackEffects)
        requires
            0 < period_ms,
            0 < flash_period_ms,
        ensures
            fx == (AttackEffects { elapsed_ms: 0, period_ms, flash_period_ms }),
            fx.wf(),
    {
        AttackEffects { elapsed_ms: 0, period_ms, flash_period_ms }
    }
}

/// One frame of the attack animation, advanced by the frame's wall-clock
/// delta. During the player's attack the frame dictates the target's flash
/// visibility; when the period completes, visibility is restored to shown
/// regardless of the flash state, the timer wraps, and the phase advances
/// past the attack. (Outside the player's attack, the frame's only visual is
/// the camera shake, a presentation matter computed from the timer's fields
/// by the caller.)
pub fn handle_attack_effects(
    fx: &mut AttackEffects,
    state: CombatState,
    delta_ms: u32,
) -> (frame: EffectFrame)
    requires
        old(fx).wf(),
        old(fx).elapsed_ms + delta_ms <= u32::MAX,
    ensures
        final(fx).period_ms == old(fx).period_ms,
        final(fx).flash_period_ms == old(fx).flash_period_ms,
        final(fx).elapsed_ms == (old(fx).elapsed_ms + delta_ms) % (old(fx).period_ms as int),
        final(fx).wf(),
        ({
            let total = old(fx).elapsed_ms + delta_ms;
            let done = total >= old(fx).period_ms;
            &&& frame.next_state == (if done {
                Some(after_attack_state(state))
            } else {
                None::<CombatState>
            })
            &&& frame.visibility == (if done {
                Some(true)
            } else if state == CombatState::PlayerAttack {
                Some(flash_visible(total, old(fx).flash_period_ms as int))
            } else {
                None::<bool>
            })
        }),
{
    let total: u32 = fx.elapsed_ms + delta_ms;
    let done: bool = total >= fx.period_ms;
    fx.elapsed_ms = total % fx.period_ms;
    if done {
        EffectFrame { visibility: Some(true), next_state: Some(next_attack_state(state)) }
    } else if state == CombatState::PlayerAttack {
        let in_flash: u32 = total % fx.flash_period_ms;
        EffectFrame {
            visibility: Some(!(in_flash > fx.flash_period_ms / 2)),
            next_state: None,
        }
    } else {
        EffectFrame { visibility: None, next_state: None }
    }
}

/// The phase past a finished attack animation, as an executable value.
pub fn next_attack_state(state: CombatState) -> (next: CombatState)
    ensures
        next == after_attack_state(state),
{
    if state == CombatState::PlayerAttack {
        CombatState::EnemyTurn(false)
    } else {
        CombatState::PlayerTurn
    }
}

/// A one-shot countdown for short-lived effect sprites: once its duration
/// has elapsed, the sprite it times is to be despawned.
#[derive(Clone, Copy, Debug, PartialEq, Eq, Structural)]
pub struct DespawnTimer {
    pub elapsed_ms: u32,
    pub duration_ms: u32,
}

impl DespawnTimer {
    /// The one-shot invariant: elapsed time is capped at the duration.
    pub open spec fn wf(self) -> bool {
        self.elapsed_ms <= self.duration_ms
    }

    /// A fresh countdown over `duration_ms`.
    pub fn new(duration_ms: u32) -> (timer: DespawnTimer)
        ensures
            timer == (DespawnTimer { elapsed_ms: 0, duration_ms }),
            timer.wf(),
    {
        DespawnTimer { elapsed_ms: 0, duration_ms }
    }

    /// Advance by one frame's delta, saturating at the duration, and report
    /// whether the countdown has now run out.
    pub fn tick(&mut self, delta_ms: u32) -> (finished: bool)
        requires
            old(self).wf(),
        ensures
            final(self).duration_ms == old(self).duration_ms,
            final(self).elapsed_ms == vstd::math::min(
                old(self).elapsed_ms + delta_ms,
                old(self).duration_ms as int,
            ),
            final(self).wf(),
            finished == (old(self).elapsed_ms + delta_ms >= old(self).duration_ms),
    {
        let room: u32 = self.duration_ms - self.elapsed_ms;
        if delta_ms >= room {
            self.elapsed_ms = self.duration_ms;
            true
        } else {
            self.elapsed_ms = self.elapsed_ms + delta_ms;
            false
        }
    }
}

} // verus!
