//! Movement execution: relocation, rejection and collision damage.

use wizard_fight::battle::Battle;
use wizard_fight::board::Entity;
use wizard_fight::effects::Effects;
use wizard_fight::errors::IllegalMove;
use wizard_fight::model::{SpellChoice, SpellSelect};
use wizard_fight::position::{Direction, Position};
use wizard_fight::projectile::{Projectile, ProjectileType};
use wizard_fight::wizard::Team;

fn fresh_battle() -> Battle {
    let select = SpellSelect {
        players: vec![SpellChoice::default(), SpellChoice::default()],
    };
    Battle::new(&select)
}

fn projectile(x: usize, y: usize, damage: usize, passable: bool) -> Projectile {
    Projectile::new(
        Position::new(x, y),
        ProjectileType::Boulder,
        damage,
        Direction::Left,
        Team::Blue,
        false,
        1,
        passable,
        8,
    )
}

#[test]
fn move_to_empty_tile_relocates() {
    let mut battle = fresh_battle();
    assert_eq!(battle.move_current_wizard_to(Position::new(5, 5)), Ok(()));
    assert_eq!(battle.get_current_wizard().position, Position::new(5, 5));
    assert_eq!(battle.get_entity_at(Position::new(0, 0)), None);
    assert_eq!(
        battle.get_entity_at(Position::new(5, 5)),
        Some(Entity::Wizard(0))
    );
    // The other unit is untouched.
    assert_eq!(
        battle.get_entity_at(Position::new(1, 0)),
        Some(Entity::Wizard(1))
    );
}

#[test]
fn move_into_other_unit_is_rejected() {
    let mut battle = fresh_battle();
    assert_eq!(
        battle.move_current_wizard_to(Position::new(1, 0)),
        Err(IllegalMove::OccupiedByUnit)
    );
    // Nothing changed.
    assert_eq!(battle.get_current_wizard().position, Position::new(0, 0));
    assert_eq!(
        battle.get_entity_at(Position::new(0, 0)),
        Some(Entity::Wizard(0))
    );
    assert_eq!(
        battle.get_entity_at(Position::new(1, 0)),
        Some(Entity::Wizard(1))
    );
}

#[test]
fn move_into_impassable_projectile_is_rejected() {
    let mut battle = fresh_battle();
    battle.move_current_wizard_to(Position::new(5, 5)).unwrap();
    assert_eq!(battle.add_projectile(projectile(6, 5, 25, false)), Some(0));
    assert_eq!(
        battle.move_current_wizard_to(Position::new(6, 5)),
        Err(IllegalMove::BlockedByImpassableProjectile)
    );
    // The acting unit's position and the board are unchanged.
    assert_eq!(battle.get_current_wizard().position, Position::new(5, 5));
    assert_eq!(battle.get_current_wizard().health, 100);
    assert_eq!(
        battle.get_entity_at(Position::new(5, 5)),
        Some(Entity::Wizard(0))
    );
    assert_eq!(
        battle.get_entity_at(Position::new(6, 5)),
        Some(Entity::Projectile(0))
    );
}

#[test]
fn move_onto_passable_projectile_deals_its_damage() {
    let mut battle = fresh_battle();
    assert_eq!(battle.add_projectile(projectile(0, 1, 30, true)), Some(0));
    assert_eq!(battle.move_current_wizard_to(Position::new(0, 1)), Ok(()));
    assert_eq!(battle.get_current_wizard().position, Position::new(0, 1));
    assert_eq!(battle.get_current_wizard().health, 70);
    // The projectile is cleared off the board; the unit stands there.
    assert_eq!(
        battle.get_entity_at(Position::new(0, 1)),
        Some(Entity::Wizard(0))
    );
    // Its record stays in the projectile list.
    assert_eq!(battle.get_projectile(0).damage, 30);
}

#[test]
fn stone_skin_halves_collision_damage() {
    let mut battle = fresh_battle();
    battle.apply_effect(0, Effects::StoneSkin, 5);
    assert_eq!(battle.add_projectile(projectile(0, 1, 31, true)), Some(0));
    assert_eq!(battle.move_current_wizard_to(Position::new(0, 1)), Ok(()));
    assert_eq!(battle.get_current_wizard().health, 100 - 15);
}

#[test]
fn move_to_own_tile_is_allowed_and_changes_nothing() {
    let mut battle = fresh_battle();
    assert_eq!(battle.move_current_wizard_to(Position::new(0, 0)), Ok(()));
    assert_eq!(battle.get_current_wizard().position, Position::new(0, 0));
    assert_eq!(
        battle.get_entity_at(Position::new(0, 0)),
        Some(Entity::Wizard(0))
    );
}

#[test]
fn move_the_non_acting_unit_by_index() {
    let mut battle = fresh_battle();
    assert_eq!(battle.move_wizard_to(1, Position::new(20, 10)), Ok(()));
    assert_eq!(battle.get_wizard(1).position, Position::new(20, 10));
    assert_eq!(battle.get_entity_at(Position::new(1, 0)), None);
    assert_eq!(
        battle.get_entity_at(Position::new(20, 10)),
        Some(Entity::Wizard(1))
    );
    assert_eq!(battle.current_wizard_index(), 0);
}

#[test]
fn spawn_on_occupied_tile_is_refused() {
    let mut battle = fresh_battle();
    assert_eq!(battle.add_projectile(projectile(0, 0, 9, true)), None);
    assert_eq!(
        battle.get_entity_at(Position::new(0, 0)),
        Some(Entity::Wizard(0))
    );
}
