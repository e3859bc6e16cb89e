//! Unit and projectile state: damage, effects and movement depth.

use wizard_fight::effects::{Effects, EFFECT_COUNT};
use wizard_fight::position::{Direction, Position};
use wizard_fight::projectile::{Projectile, ProjectileType};
use wizard_fight::wizard::{Team, Wizard};

fn fresh_wizard() -> Wizard {
    Wizard {
        team: Team::Red,
        health: 100,
        mana: 100,
        effects: [0; EFFECT_COUNT],
        position: Position::new(0, 0),
        spells: Vec::new(),
    }
}

#[test]
fn take_damage_plain() {
    let mut w = fresh_wizard();
    w.take_damage(30);
    assert_eq!(w.health, 70);
    assert_eq!(w.mana, 100);
}

#[test]
fn take_damage_floors_at_zero() {
    let mut w = fresh_wizard();
    w.health = 5;
    w.take_damage(1000);
    assert_eq!(w.health, 0);
    assert!(w.is_dead());
    w.take_damage(7);
    assert_eq!(w.health, 0);
}

#[test]
fn take_damage_stone_skin_halves_rounding_down() {
    // Health H and damage D with damage reduction give H - floor(D / 2).
    let mut w = fresh_wizard();
    w.apply_effect(Effects::StoneSkin, 3);
    w.take_damage(31);
    assert_eq!(w.health, 100 - 15);
    let mut v = fresh_wizard();
    v.health = 10;
    v.apply_effect(Effects::StoneSkin, 1);
    v.take_damage(7);
    assert_eq!(v.health, 7);
}

#[test]
fn effect_counters_decrement_saturating() {
    let mut w = fresh_wizard();
    w.apply_effect(Effects::Circulation, 2);
    w.apply_effect(Effects::Tornado, 1);
    assert!(w.has_effect(Effects::Circulation));
    assert!(w.has_effect(Effects::Tornado));
    assert!(!w.has_effect(Effects::AuraOfFire));
    w.decrement_effects();
    assert!(w.has_effect(Effects::Circulation));
    assert!(!w.has_effect(Effects::Tornado));
    w.decrement_effects();
    assert!(!w.has_effect(Effects::Circulation));
    w.decrement_effects();
    assert_eq!(w.effects, [0; EFFECT_COUNT]);
}

#[test]
fn effect_indexes_round_trip() {
    for i in 0..EFFECT_COUNT {
        let e = Effects::from_index(i).unwrap();
        assert_eq!(e.index(), i);
    }
    assert_eq!(Effects::from_index(EFFECT_COUNT), None);
}

#[test]
fn movement_depth_from_effects() {
    let mut w = fresh_wizard();
    assert_eq!(w.movement_depth(), 2);
    w.apply_effect(Effects::Circulation, 1);
    assert_eq!(w.movement_depth(), 4);
    w.apply_effect(Effects::Tornado, 1);
    assert_eq!(w.movement_depth(), 8);
    w.apply_effect(Effects::AuraOfFire, 1);
    assert_eq!(w.movement_depth(), 4);
    let mut v = fresh_wizard();
    v.apply_effect(Effects::AuraOfFire, 2);
    assert_eq!(v.movement_depth(), 1);
}

#[test]
fn projectile_wears_down_saturating() {
    let mut p = Projectile::new(
        Position::new(3, 3),
        ProjectileType::Boulder,
        10,
        Direction::Left,
        Team::Blue,
        false,
        1,
        false,
        5,
    );
    p.take_damage(3);
    assert_eq!(p.damage, 4);
    p.take_damage(2);
    assert_eq!(p.damage, 0);
    p.take_damage(100);
    assert_eq!(p.damage, 0);
}

#[test]
fn projectile_new_stores_fields() {
    let p = Projectile::new(
        Position::new(8, 2),
        ProjectileType::WindBolt,
        12,
        Direction::Right,
        Team::Red,
        true,
        2,
        true,
        7,
    );
    assert_eq!(p.position, Position::new(8, 2));
    assert_eq!(p.projectile_type, ProjectileType::WindBolt);
    assert_eq!(p.damage, 12);
    assert_eq!(p.direction, Direction::Right);
    assert_eq!(p.owner, Team::Red);
    assert!(p.guiding);
    assert_eq!(p.speed, 2);
    assert!(p.passable);
    assert_eq!(p.lifetime, 7);
}
