use dreadblaze_combat::effects::{handle_attack_effects, AttackEffects, DespawnTimer};
use dreadblaze_combat::phase::CombatState;

#[test]
fn completed_period_advances_phase_and_restores_visibility() {
    // Period 0.7s, flash 0.1s: at exactly 0.7s elapsed the phase advances and
    // the sprite is shown again, whatever the flash had set before.
    let mut fx = AttackEffects::new(700, 100);
    let frame = handle_attack_effects(&mut fx, CombatState::PlayerAttack, 700);
    assert_eq!(frame.visibility, Some(true));
    assert_eq!(frame.next_state, Some(CombatState::EnemyTurn(false)));
    assert_eq!(fx.elapsed_ms, 0);
}

#[test]
fn completion_reached_in_steps_still_restores_visibility() {
    let mut fx = AttackEffects::new(700, 100);
    // 660 ms in: the flash has the sprite hidden (660 % 100 = 60 > 50).
    let frame = handle_attack_effects(&mut fx, CombatState::PlayerAttack, 660);
    assert_eq!(frame.visibility, Some(false));
    assert_eq!(frame.next_state, None);
    // The remaining 40 ms complete the period.
    let frame = handle_attack_effects(&mut fx, CombatState::PlayerAttack, 40);
    assert_eq!(frame.visibility, Some(true));
    assert_eq!(frame.next_state, Some(CombatState::EnemyTurn(false)));
}

#[test]
fn flash_hides_in_the_late_half_of_each_subinterval() {
    let mut fx = AttackEffects::new(700, 100);
    let frame = handle_attack_effects(&mut fx, CombatState::PlayerAttack, 30);
    assert_eq!(frame.visibility, Some(true)); // 30 % 100 = 30 <= 50
    let frame = handle_attack_effects(&mut fx, CombatState::PlayerAttack, 30);
    assert_eq!(frame.visibility, Some(false)); // 60 % 100 = 60 > 50
    let frame = handle_attack_effects(&mut fx, CombatState::PlayerAttack, 80);
    assert_eq!(frame.visibility, Some(true)); // 140 % 100 = 40 <= 50
}

#[test]
fn enemy_attack_completion_returns_to_player_turn() {
    let mut fx = AttackEffects::new(700, 100);
    // Mid-animation the enemy phase does not touch visibility: the shake is
    // the caller's visual there.
    let frame = handle_attack_effects(&mut fx, CombatState::EnemyAttack, 300);
    assert_eq!(frame.visibility, None);
    assert_eq!(frame.next_state, None);
    let frame = handle_attack_effects(&mut fx, CombatState::EnemyAttack, 400);
    assert_eq!(frame.visibility, Some(true));
    assert_eq!(frame.next_state, Some(CombatState::PlayerTurn));
}

#[test]
fn timer_wraps_past_the_period() {
    let mut fx = AttackEffects::new(700, 100);
    let frame = handle_attack_effects(&mut fx, CombatState::EnemyAttack, 750);
    assert_eq!(frame.next_state, Some(CombatState::PlayerTurn));
    assert_eq!(fx.elapsed_ms, 50);
}

#[test]
fn despawn_timer_finishes_once_its_duration_elapses() {
    let mut timer = DespawnTimer::new(300);
    assert!(!timer.tick(100));
    assert_eq!(timer.elapsed_ms, 100);
    assert!(!timer.tick(150));
    assert!(timer.tick(100));
    assert_eq!(timer.elapsed_ms, 300);
    // A finished one-shot stays finished and saturated.
    assert!(timer.tick(50));
    assert_eq!(timer.elapsed_ms, 300);
}
