//! The reachable-tile computation: diamond shape, effect modulation,
//! and blocking occupants.

use wizard_fight::battle::Battle;
use wizard_fight::board::{HEIGHT, WIDTH};
use wizard_fight::effects::Effects;
use wizard_fight::model::{SpellChoice, SpellSelect};
use wizard_fight::position::{Direction, Position};
use wizard_fight::projectile::{Projectile, ProjectileType};
use wizard_fight::wizard::Team;

fn fresh_battle() -> Battle {
    let select = SpellSelect {
        players: vec![SpellChoice::default(), SpellChoice::default()],
    };
    Battle::new(&select)
}

fn reachable_tiles(battle: &Battle) -> Vec<Position> {
    let mut tiles = Vec::new();
    for x in 0..WIDTH {
        for y in 0..HEIGHT {
            let p = Position::new(x, y);
            if battle.wizard_can_move(p) {
                tiles.push(p);
            }
        }
    }
    tiles
}

#[test]
fn no_effect_reachable_set_is_thirteen_tile_diamond() {
    let mut battle = fresh_battle();
    battle.move_current_wizard_to(Position::new(5, 5)).unwrap();
    let tiles = reachable_tiles(&battle);
    assert_eq!(tiles.len(), 13);
    for p in &tiles {
        let d = Position::new(5, 5).dist(*p);
        assert!(d.mag() <= 2);
    }
    assert!(battle.wizard_can_move(Position::new(5, 5)));
    assert!(battle.wizard_can_move(Position::new(3, 5)));
    assert!(battle.wizard_can_move(Position::new(6, 6)));
    assert!(!battle.wizard_can_move(Position::new(8, 5)));
    assert!(!battle.wizard_can_move(Position::new(7, 6)));
}

#[test]
fn reachable_set_contains_own_tile_and_never_the_other_unit() {
    let battle = fresh_battle();
    // Unit 0 acts from (0, 0); unit 1 sits on (1, 0).
    assert!(battle.wizard_can_move(Position::new(0, 0)));
    assert!(!battle.wizard_can_move(Position::new(1, 0)));
    // The tile behind the other unit is still reachable around it.
    assert!(battle.wizard_can_move(Position::new(1, 1)));
}

#[test]
fn mobility_boost_grows_the_reachable_set() {
    let mut battle = fresh_battle();
    battle.move_current_wizard_to(Position::new(10, 10)).unwrap();
    let baseline = reachable_tiles(&battle);
    assert_eq!(baseline.len(), 13);
    battle.apply_effect(0, Effects::Circulation, 2);
    let boosted = reachable_tiles(&battle);
    // Depth 4 diamond: 2 * 4 * 5 + 1 tiles.
    assert_eq!(boosted.len(), 41);
    for p in &baseline {
        assert!(boosted.contains(p));
    }
    battle.apply_effect(0, Effects::Tornado, 2);
    let double_boosted = reachable_tiles(&battle);
    assert_eq!(double_boosted.len(), 145);
    for p in &boosted {
        assert!(double_boosted.contains(p));
    }
}

#[test]
fn mobility_reduction_shrinks_the_reachable_set() {
    let mut battle = fresh_battle();
    battle.move_current_wizard_to(Position::new(10, 10)).unwrap();
    let baseline = reachable_tiles(&battle);
    battle.apply_effect(0, Effects::AuraOfFire, 2);
    let reduced = reachable_tiles(&battle);
    // Depth 1: the tile itself and its four neighbours.
    assert_eq!(reduced.len(), 5);
    for p in &reduced {
        assert!(baseline.contains(p));
    }
}

#[test]
fn reachable_set_wraps_around_the_board() {
    let battle = fresh_battle();
    // Unit 0 at (0, 0) with depth 2 reaches across both seams.
    assert!(battle.wizard_can_move(Position::new(28, 0)));
    assert!(battle.wizard_can_move(Position::new(0, 18)));
    assert!(battle.wizard_can_move(Position::new(29, 19)));
}

#[test]
fn impassable_projectile_blocks_reachability_passable_does_not() {
    let mut battle = fresh_battle();
    battle.move_current_wizard_to(Position::new(10, 10)).unwrap();
    let wall = Projectile::new(
        Position::new(11, 10),
        ProjectileType::Wall,
        20,
        Direction::Up,
        Team::Blue,
        false,
        0,
        false,
        9,
    );
    assert_eq!(battle.add_projectile(wall), Some(0));
    assert!(!battle.wizard_can_move(Position::new(11, 10)));
    let spike = Projectile::new(
        Position::new(9, 10),
        ProjectileType::Spike,
        4,
        Direction::Up,
        Team::Blue,
        false,
        0,
        true,
        9,
    );
    assert_eq!(battle.add_projectile(spike), Some(1));
    assert!(battle.wizard_can_move(Position::new(9, 10)));
}
