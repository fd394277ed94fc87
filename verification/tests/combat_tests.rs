use rustopia::combat::{fire_decision, resolve_projectile_hits, FireOutcome, PROJECTILE_DAMAGE};

#[test]
fn damage_is_twelve() {
    assert_eq!(PROJECTILE_DAMAGE, 12);
}

#[test]
fn fire_rules() {
    assert_eq!(fire_decision(false, true, true, true, true), FireOutcome::Hold);
    assert_eq!(fire_decision(true, false, true, true, true), FireOutcome::Hold);
    assert_eq!(fire_decision(true, true, false, true, true), FireOutcome::Hold);
    assert_eq!(fire_decision(true, true, true, false, true), FireOutcome::ResetOnly);
    assert_eq!(fire_decision(true, true, true, true, false), FireOutcome::ResetOnly);
    assert_eq!(fire_decision(true, true, true, true, true), FireOutcome::Launch);
}

#[test]
fn first_hit_survives_second_kills() {
    let mut health = vec![18];
    let kills = resolve_projectile_hits(&mut health, &vec![vec![true]]);
    assert_eq!(health, vec![6]);
    assert!(kills.is_empty());
    let kills = resolve_projectile_hits(&mut health, &vec![vec![true]]);
    assert_eq!(health, vec![-6]);
    assert_eq!(kills, vec![(0, 0)]);
}

#[test]
fn projectile_hits_only_first_overlapping_enemy() {
    let mut health = vec![18, 18, 18];
    let kills = resolve_projectile_hits(&mut health, &vec![vec![false, true, true]]);
    assert_eq!(health, vec![18, 6, 18]);
    assert!(kills.is_empty());
}

#[test]
fn finished_enemy_keeps_taking_hits_in_the_same_frame() {
    let mut health = vec![10, 30];
    let overlaps = vec![vec![true, true], vec![true, false], vec![false, false], vec![false, true]];
    let kills = resolve_projectile_hits(&mut health, &overlaps);
    assert_eq!(health, vec![-14, 18]);
    assert_eq!(kills, vec![(0, 0), (1, 0)]);
}

#[test]
fn no_projectiles_or_no_enemies() {
    let mut health = vec![5, 7];
    assert!(resolve_projectile_hits(&mut health, &vec![]).is_empty());
    assert_eq!(health, vec![5, 7]);
    let mut none: Vec<i32> = vec![];
    assert!(resolve_projectile_hits(&mut none, &vec![vec![], vec![]]).is_empty());
}

#[test]
fn total_damage_matches_hitting_projectiles() {
    let mut health = vec![100, 100, 100];
    let overlaps = vec![vec![true, false, false], vec![false, false, false], vec![false, true, true], vec![false, false, true]];
    resolve_projectile_hits(&mut health, &overlaps);
    let total: i32 = health.iter().sum();
    assert_eq!(total, 300 - 3 * 12);
}
