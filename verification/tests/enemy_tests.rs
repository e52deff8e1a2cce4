use dreadblaze_combat::enemy::{archetype_for_coin, enemy_stats_for, spawn_enemy, EnemyType};
use dreadblaze_combat::reward::{give_reward, reward_for};
use dreadblaze_combat::stats::CombatStats;

#[test]
fn bat_template() {
    assert_eq!(
        enemy_stats_for(EnemyType::Bat),
        CombatStats { health: 3, max_health: 3, mana: 0, max_mana: 0, attack: 2, defense: 1 }
    );
}

#[test]
fn specter_template() {
    assert_eq!(
        enemy_stats_for(EnemyType::Specter),
        CombatStats { health: 5, max_health: 5, mana: 0, max_mana: 0, attack: 3, defense: 2 }
    );
}

#[test]
fn coin_sides_map_to_both_archetypes() {
    assert_eq!(archetype_for_coin(true), EnemyType::Bat);
    assert_eq!(archetype_for_coin(false), EnemyType::Specter);
}

#[test]
fn spawned_enemy_carries_its_template() {
    // Whichever archetype the coin picks, the stats are its template.
    for _ in 0..32 {
        let (enemy, stats) = spawn_enemy();
        assert_eq!(stats, enemy_stats_for(enemy.enemy_type));
    }
}

#[test]
fn reward_table() {
    assert_eq!(reward_for(EnemyType::Bat), 10);
    assert_eq!(reward_for(EnemyType::Specter), 30);
}

#[test]
fn reward_outcome_carries_exp_and_level_up() {
    let outcome = give_reward(EnemyType::Specter, true);
    assert_eq!(outcome.exp_earned, 30);
    assert!(outcome.leveled_up);
    let outcome = give_reward(EnemyType::Bat, false);
    assert_eq!(outcome.exp_earned, 10);
    assert!(!outcome.leveled_up);
}
