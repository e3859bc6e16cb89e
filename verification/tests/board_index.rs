//! The dense board index: placement, lookup, removal and relocation.

use wizard_fight::board::{Board, Entity};
use wizard_fight::effects::EFFECT_COUNT;
use wizard_fight::position::{Direction, Position};
use wizard_fight::projectile::{Projectile, ProjectileType};
use wizard_fight::wizard::{Team, Wizard};

fn wizard_at(x: usize, y: usize) -> Wizard {
    Wizard {
        team: Team::Red,
        health: 100,
        mana: 100,
        effects: [0; EFFECT_COUNT],
        position: Position::new(x, y),
        spells: Vec::new(),
    }
}

fn projectile_at(x: usize, y: usize) -> Projectile {
    Projectile::new(
        Position::new(x, y),
        ProjectileType::Spike,
        5,
        Direction::Up,
        Team::Blue,
        false,
        1,
        true,
        3,
    )
}

#[test]
fn empty_board_has_no_entities() {
    let board = Board::empty();
    assert_eq!(board.get_entity_at(Position::new(0, 0)), None);
    assert_eq!(board.get_entity_at(Position::new(29, 19)), None);
    assert_eq!(board.get_entity_at(Position::new(14, 9)), None);
}

#[test]
fn new_board_places_wizards_and_projectiles() {
    let wizards = vec![wizard_at(0, 0), wizard_at(5, 5)];
    let projectiles = vec![projectile_at(9, 9)];
    let board = Board::new(&wizards, &projectiles);
    assert_eq!(
        board.get_entity_at(Position::new(0, 0)),
        Some(Entity::Wizard(0))
    );
    assert_eq!(
        board.get_entity_at(Position::new(5, 5)),
        Some(Entity::Wizard(1))
    );
    assert_eq!(
        board.get_entity_at(Position::new(9, 9)),
        Some(Entity::Projectile(0))
    );
    assert_eq!(board.get_entity_at(Position::new(1, 0)), None);
}

#[test]
fn place_remove_and_swap() {
    let mut board = Board::empty();
    board.place_entity_at(Position::new(3, 4), Entity::Wizard(1));
    assert_eq!(
        board.get_entity_at(Position::new(3, 4)),
        Some(Entity::Wizard(1))
    );
    board.swap_entities(Position::new(3, 4), Position::new(7, 7));
    assert_eq!(board.get_entity_at(Position::new(3, 4)), None);
    assert_eq!(
        board.get_entity_at(Position::new(7, 7)),
        Some(Entity::Wizard(1))
    );
    board.remove_entity_at(Position::new(7, 7));
    assert_eq!(board.get_entity_at(Position::new(7, 7)), None);
}

#[test]
fn entity_kind_queries() {
    assert!(Entity::Wizard(2).is_wizard());
    assert!(!Entity::Wizard(2).is_projectile());
    assert!(Entity::Projectile(0).is_projectile());
    assert!(!Entity::Projectile(0).is_wizard());
}
