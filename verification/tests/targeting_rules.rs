//! Spell targeting: per-spell geometric predicates, coarse filters and
//! the validation of complete inputs.

use wizard_fight::battle::Battle;
use wizard_fight::errors::InvalidSpellTarget;
use wizard_fight::model::{SpellChoice, SpellSelect};
use wizard_fight::position::{Direction, Position};
use wizard_fight::projectile::{Projectile, ProjectileType};
use wizard_fight::spell::{AreaPredicate, PairPredicate, Spell, SpellPositionFilter};
use wizard_fight::targeting::{
    area_predicate_holds, pair_predicate_holds, position_filter_holds, validate_spell_target,
    SpellTargetInput,
};
use wizard_fight::wizard::Team;

/// A battle with the acting unit moved to (10, 10).
fn centered_battle() -> Battle {
    let select = SpellSelect {
        players: vec![SpellChoice::default(), SpellChoice::default()],
    };
    let mut battle = Battle::new(&select);
    battle.move_current_wizard_to(Position::new(10, 10)).unwrap();
    battle
}

fn directed(dir: Direction, x: usize, y: usize) -> SpellTargetInput {
    SpellTargetInput::Directed(dir, Position::new(x, y))
}

fn picks(tiles: &[(usize, usize)]) -> SpellTargetInput {
    SpellTargetInput::Picks(tiles.iter().map(|t| Position::new(t.0, t.1)).collect())
}

#[test]
fn water_spear_needs_axis_alignment_range_and_direction() {
    let battle = centered_battle();
    // Four tiles east, aligned, within range 6.
    assert_eq!(
        validate_spell_target(&battle, Spell::WaterSpear, &directed(Direction::Right, 14, 10)),
        Ok(())
    );
    // Same tile with the wrong direction.
    assert_eq!(
        validate_spell_target(&battle, Spell::WaterSpear, &directed(Direction::Left, 14, 10)),
        Err(InvalidSpellTarget::PredicateFailed)
    );
    // Out of range (seven tiles).
    assert_eq!(
        validate_spell_target(&battle, Spell::WaterSpear, &directed(Direction::Right, 17, 10)),
        Err(InvalidSpellTarget::PredicateFailed)
    );
    // Not axis-aligned.
    assert_eq!(
        validate_spell_target(&battle, Spell::WaterSpear, &directed(Direction::Right, 12, 11)),
        Err(InvalidSpellTarget::PredicateFailed)
    );
    // North across no seam: three tiles up.
    assert_eq!(
        validate_spell_target(&battle, Spell::WaterSpear, &directed(Direction::Up, 10, 7)),
        Ok(())
    );
    // The caster's own tile points in no direction.
    assert_eq!(
        validate_spell_target(&battle, Spell::WaterSpear, &directed(Direction::Up, 10, 10)),
        Err(InvalidSpellTarget::PredicateFailed)
    );
}

#[test]
fn water_spear_respects_wraparound() {
    let select = SpellSelect {
        players: vec![SpellChoice::default(), SpellChoice::default()],
    };
    let mut battle = Battle::new(&select);
    battle.move_current_wizard_to(Position::new(1, 5)).unwrap();
    // (28, 5) is three tiles to the west across the seam.
    assert_eq!(
        validate_spell_target(&battle, Spell::WaterSpear, &directed(Direction::Left, 28, 5)),
        Ok(())
    );
    assert_eq!(
        validate_spell_target(&battle, Spell::WaterSpear, &directed(Direction::Right, 28, 5)),
        Err(InvalidSpellTarget::PredicateFailed)
    );
}

#[test]
fn flame_reaches_seven_tiles() {
    let battle = centered_battle();
    assert_eq!(
        validate_spell_target(&battle, Spell::Flame, &directed(Direction::Right, 17, 10)),
        Ok(())
    );
    assert_eq!(
        validate_spell_target(&battle, Spell::Flame, &directed(Direction::Right, 18, 10)),
        Err(InvalidSpellTarget::PredicateFailed)
    );
}

#[test]
fn fixed_offset_spells_hit_exactly_one_step() {
    let battle = centered_battle();
    for spell in [Spell::Fireball, Spell::Boulder, Spell::WindBolt, Spell::Glide] {
        assert_eq!(
            validate_spell_target(&battle, spell, &directed(Direction::Up, 10, 9)),
            Ok(())
        );
        assert_eq!(
            validate_spell_target(&battle, spell, &directed(Direction::Down, 10, 11)),
            Ok(())
        );
        assert_eq!(
            validate_spell_target(&battle, spell, &directed(Direction::Up, 10, 8)),
            Err(InvalidSpellTarget::PredicateFailed)
        );
        assert_eq!(
            validate_spell_target(&battle, spell, &directed(Direction::Up, 10, 11)),
            Err(InvalidSpellTarget::PredicateFailed)
        );
    }
}

#[test]
fn stagnation_snaps_to_the_caster_tile() {
    let battle = centered_battle();
    // One pick, checked against the caster: only the caster's own tile.
    assert_eq!(
        validate_spell_target(&battle, Spell::Stagnation, &picks(&[(10, 10)])),
        Ok(())
    );
    assert_eq!(
        validate_spell_target(&battle, Spell::Stagnation, &picks(&[(10, 11)])),
        Err(InvalidSpellTarget::PredicateFailed)
    );
}

#[test]
fn explosion_pair_within_magnitude_three() {
    let battle = centered_battle();
    assert_eq!(
        validate_spell_target(&battle, Spell::Explosion, &picks(&[(4, 4), (6, 5)])),
        Ok(())
    );
    assert_eq!(
        validate_spell_target(&battle, Spell::Explosion, &picks(&[(4, 4), (6, 6)])),
        Err(InvalidSpellTarget::PredicateFailed)
    );
    assert_eq!(
        validate_spell_target(&battle, Spell::Explosion, &picks(&[(4, 4)])),
        Err(InvalidSpellTarget::IncompleteSelection)
    );
}

#[test]
fn spikes_picks_within_chebyshev_three_of_the_first() {
    let battle = centered_battle();
    assert_eq!(
        validate_spell_target(&battle, Spell::Spikes, &picks(&[(10, 5), (13, 8), (7, 2)])),
        Ok(())
    );
    // The last pick is four columns away from the first.
    assert_eq!(
        validate_spell_target(&battle, Spell::Spikes, &picks(&[(10, 5), (13, 8), (14, 5)])),
        Err(InvalidSpellTarget::PredicateFailed)
    );
}

#[test]
fn wall_requires_no_picks() {
    let battle = centered_battle();
    assert_eq!(
        validate_spell_target(&battle, Spell::Wall, &picks(&[])),
        Ok(())
    );
    assert_eq!(
        validate_spell_target(&battle, Spell::Wall, &picks(&[(10, 10)])),
        Err(InvalidSpellTarget::IncompleteSelection)
    );
}

#[test]
fn mana_drain_targeting_is_not_implemented() {
    let battle = centered_battle();
    assert_eq!(
        validate_spell_target(&battle, Spell::ManaDrain, &picks(&[(1, 1), (2, 2), (3, 3), (4, 4)])),
        Err(InvalidSpellTarget::NotImplemented)
    );
    assert_eq!(
        validate_spell_target(&battle, Spell::ManaDrain, &SpellTargetInput::NoTarget),
        Err(InvalidSpellTarget::NotImplemented)
    );
}

#[test]
fn self_buffs_confirm_without_input() {
    let battle = centered_battle();
    assert_eq!(
        validate_spell_target(&battle, Spell::IncreasedCirculation, &SpellTargetInput::NoTarget),
        Ok(())
    );
    assert_eq!(
        validate_spell_target(&battle, Spell::StoneSkin, &SpellTargetInput::NoTarget),
        Ok(())
    );
    // Wrong input shapes are named as such.
    assert_eq!(
        validate_spell_target(&battle, Spell::StoneSkin, &picks(&[(1, 1)])),
        Err(InvalidSpellTarget::WrongInputKind)
    );
    assert_eq!(
        validate_spell_target(&battle, Spell::Fireball, &SpellTargetInput::NoTarget),
        Err(InvalidSpellTarget::WrongInputKind)
    );
    assert_eq!(
        validate_spell_target(&battle, Spell::Explosion, &directed(Direction::Up, 1, 1)),
        Err(InvalidSpellTarget::WrongInputKind)
    );
}

#[test]
fn off_board_picks_fail_the_predicate() {
    let battle = centered_battle();
    assert_eq!(
        validate_spell_target(&battle, Spell::Explosion, &picks(&[(10, 10), (45, 3)])),
        Err(InvalidSpellTarget::PredicateFailed)
    );
}

#[test]
fn area_predicates_highlight_by_distance() {
    let battle = centered_battle();
    // Tornado: within wrapped Manhattan distance 5.
    assert!(area_predicate_holds(&battle, AreaPredicate::WithinFive, Position::new(13, 12)));
    assert!(!area_predicate_holds(&battle, AreaPredicate::WithinFive, Position::new(13, 13)));
    // Aura: within 6.
    assert!(area_predicate_holds(&battle, AreaPredicate::WithinSix, Position::new(13, 13)));
    // Self-buffs highlight nothing.
    assert!(!area_predicate_holds(&battle, AreaPredicate::Never, Position::new(10, 10)));
}

#[test]
fn repulsive_blast_highlights_projectiles_only() {
    let mut battle = centered_battle();
    assert!(!area_predicate_holds(
        &battle,
        AreaPredicate::ProjectileWithinSix,
        Position::new(12, 10)
    ));
    let spike = Projectile::new(
        Position::new(12, 10),
        ProjectileType::Spike,
        4,
        Direction::Up,
        Team::Blue,
        false,
        0,
        true,
        9,
    );
    battle.add_projectile(spike).unwrap();
    assert!(area_predicate_holds(
        &battle,
        AreaPredicate::ProjectileWithinSix,
        Position::new(12, 10)
    ));
    // In range but empty, or occupied but out of range, stays dark.
    assert!(!area_predicate_holds(
        &battle,
        AreaPredicate::ProjectileWithinSix,
        Position::new(11, 10)
    ));
}

#[test]
fn wall_ring_alignment() {
    let battle = centered_battle();
    // Neighbours on the Chebyshev ring of radius 2 around (10, 10).
    assert_eq!(
        validate_spell_target(&battle, Spell::Wall, &picks(&[])),
        Ok(())
    );
    let ring = PairPredicate::SameRingAligned;
    // Adjacent tiles along the eastern edge of the ring.
    assert!(pair_predicate_holds(&battle, ring, Position::new(12, 10), Position::new(12, 11)));
    // Same ring but a quarter turn apart.
    assert!(!pair_predicate_holds(&battle, ring, Position::new(12, 10), Position::new(10, 12)));
    // Different rings never align.
    assert!(!pair_predicate_holds(&battle, ring, Position::new(12, 10), Position::new(13, 10)));
}

#[test]
fn coarse_filters_gate_tile_selection() {
    let select = SpellSelect {
        players: vec![SpellChoice::default(), SpellChoice::default()],
    };
    let battle = Battle::new(&select);
    // Caster at (0, 0), other unit at (1, 0).
    assert!(position_filter_holds(
        &battle,
        SpellPositionFilter::WizardWithinSeven,
        Position::new(1, 0)
    ));
    // The caster's own tile never passes the unit filters.
    assert!(!position_filter_holds(
        &battle,
        SpellPositionFilter::WizardWithinSeven,
        Position::new(0, 0)
    ));
    // An empty tile does not pass a unit filter.
    assert!(!position_filter_holds(
        &battle,
        SpellPositionFilter::WizardWithinSeven,
        Position::new(2, 0)
    ));
    assert!(position_filter_holds(&battle, SpellPositionFilter::WithinFive, Position::new(3, 2)));
    assert!(!position_filter_holds(&battle, SpellPositionFilter::WithinFive, Position::new(3, 3)));
    assert!(position_filter_holds(&battle, SpellPositionFilter::WithinTen, Position::new(5, 5)));
    assert!(position_filter_holds(
        &battle,
        SpellPositionFilter::WizardWithinFour,
        Position::new(1, 0)
    ));
}
