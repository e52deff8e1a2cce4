use dreadblaze_combat::stats::CombatStats;

fn stats(health: isize, max_health: isize, mana: isize, max_mana: isize, attack: isize, defense: isize) -> CombatStats {
    CombatStats { health, max_health, mana, max_mana, attack, defense }
}

#[test]
fn damage_follows_the_formula() {
    // health 3, defense 1, incoming 2: one point of damage.
    let mut s = stats(3, 3, 0, 0, 2, 1);
    let new_health = s.apply_damage(2);
    assert_eq!(new_health, 2);
    assert_eq!(s.health, 2);
    assert_eq!(s.max_health, 3);
    assert_eq!(s.defense, 1);
}

#[test]
fn damage_clamps_at_zero() {
    // health 3, defense 1, incoming 5: max(3 - 4, 0) = 0.
    let mut s = stats(3, 3, 0, 0, 2, 1);
    assert_eq!(s.apply_damage(5), 0);
    assert_eq!(s.health, 0);
}

#[test]
fn overkill_does_not_go_negative() {
    let mut s = stats(1, 10, 0, 0, 0, 0);
    assert_eq!(s.apply_damage(100), 0);
    assert_eq!(s.health, 0);
}

#[test]
fn defense_above_amount_heals() {
    // The literal rule: defense 4 against incoming 1 is net -3, so health rises.
    let mut s = stats(2, 10, 0, 0, 0, 4);
    assert_eq!(s.apply_damage(1), 5);
    assert_eq!(s.health, 5);
}

#[test]
fn healing_may_pass_max_health() {
    // The rule does not clamp above: full health plus a net heal overshoots.
    let mut s = stats(3, 3, 0, 0, 0, 2);
    assert_eq!(s.apply_damage(1), 4);
    assert_eq!(s.health, 4);
}

#[test]
fn zero_effective_damage_changes_nothing() {
    let mut s = stats(7, 9, 0, 0, 0, 3);
    assert_eq!(s.apply_damage(3), 7);
    assert_eq!(s.health, 7);
}

#[test]
fn mana_spend_succeeds_with_mana() {
    let mut s = stats(5, 5, 2, 3, 1, 1);
    assert!(s.spend_mana(1));
    assert_eq!(s.mana, 1);
    assert!(s.spend_mana(1));
    assert_eq!(s.mana, 0);
}

#[test]
fn mana_spend_at_zero_is_a_no_op() {
    let mut s = stats(5, 5, 0, 3, 1, 1);
    assert!(!s.spend_mana(1));
    assert_eq!(s, stats(5, 5, 0, 3, 1, 1));
    // Trying again changes nothing either.
    assert!(!s.spend_mana(1));
    assert_eq!(s.mana, 0);
}
