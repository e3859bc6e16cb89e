//! Evaluation of the spell targeting predicates and coarse filters,
//! and validation of a complete targeting input against a spell.

use vstd::prelude::*;

use crate::battle::Battle;
use crate::board::{Entity, HEIGHT, WIDTH};
use crate::errors::InvalidSpellTarget;
use crate::position::{
    max_int, min_int, rem_euclid_isize, signed_axis, Direction, Position,
};
use crate::spell::{
    AreaPredicate, DirectionPredicate, PairPredicate, Spell, SpellInputType, SpellPositionFilter,
};

verus! {

/// Whether a tile holds a unit.
pub open spec fn wizard_at_spec(b: Battle, pos: Position) -> bool {
    match b.entity_at_spec(pos) {
        Some(Entity::Wizard(_)) => true,
        _ => false,
    }
}

/// Whether a tile holds a projectile.
pub open spec fn projectile_at_spec(b: Battle, pos: Position) -> bool {
    match b.entity_at_spec(pos) {
        Some(Entity::Projectile(_)) => true,
        _ => false,
    }
}

/// Wrapped Manhattan magnitude between two positions: the sum of the
/// per-axis wrapped distances.
pub open spec fn mag_spec(a: Position, b: Position) -> int {
    a.dist_spec(b).x + a.dist_spec(b).y
}

/// Wrapped Chebyshev distance between two positions: the larger of the
/// per-axis wrapped distances.
pub open spec fn cheb_spec(a: Position, b: Position) -> int {
    max_int(a.dist_spec(b).x as int, a.dist_spec(b).y as int)
}

/// What an area predicate says about a candidate tile.
pub open spec fn area_predicate_holds_spec(p: AreaPredicate, b: Battle, pos: Position) -> bool {
    match p {
        AreaPredicate::Never => false,
        AreaPredicate::WithinFive => mag_spec(b.start_tile(), pos) <= 5,
        AreaPredicate::WithinSix => mag_spec(b.start_tile(), pos) <= 6,
        AreaPredicate::ProjectileWithinSix => mag_spec(b.start_tile(), pos) <= 6
            && projectile_at_spec(b, pos),
    }
}

/// The piecewise linear ring parameterization: the angular coordinate
/// of a tile along the Chebyshev ring around `center` it sits on.  The
/// coordinate runs once around the ring, so it wraps at `8 * radius`.
pub open spec fn ring_coord_spec(center: Position, other: Position) -> int {
    let x = signed_axis(center.x as int, other.x as int, WIDTH as int);
    let y = signed_axis(center.y as int, other.y as int, HEIGHT as int);
    if x > y && -x > y {
        -7 * y + x
    } else if x > y {
        x + y
    } else if -x > y {
        -5 * x - y
    } else {
        3 * y - x
    }
}

/// The wall-spell pair rule: both tiles on the same Chebyshev ring
/// around the caster, and within an angular tolerance of 2 along that
/// ring, measured cyclically in either direction.  Two tiles on ring 0
/// coincide with the caster and count as aligned.
pub open spec fn wall_pair_spec(caster: Position, p1: Position, p2: Position) -> bool {
    let d = cheb_spec(caster, p1);
    if cheb_spec(caster, p2) != d {
        false
    } else if d == 0 {
        true
    } else {
        let s1 = ring_coord_spec(caster, p1);
        let s2 = ring_coord_spec(caster, p2);
        let m = 8 * d;
        min_int((s1 - s2) % m, (s2 - s1) % m) <= 2
    }
}

/// What a pairwise predicate says about two picked tiles.
pub open spec fn pair_predicate_holds_spec(
    p: PairPredicate,
    b: Battle,
    p1: Position,
    p2: Position,
) -> bool {
    match p {
        PairPredicate::SamePosition => p1 == p2,
        PairPredicate::WithinMagnitudeThree => mag_spec(p1, p2) <= 3,
        PairPredicate::WithinChebyshevThree => cheb_spec(p1, p2) <= 3,
        PairPredicate::SameRingAligned => wall_pair_spec(b.start_tile(), p1, p2),
        PairPredicate::Disabled => false,
    }
}

/// What a direction predicate says about a chosen direction and tile.
pub open spec fn direction_predicate_holds_spec(
    p: DirectionPredicate,
    b: Battle,
    dir: Direction,
    pos: Position,
) -> bool {
    let caster = b.start_tile();
    match p {
        DirectionPredicate::SingleStep => caster.step_spec(dir) == pos,
        DirectionPredicate::AxisLine(range) => {
            let d = caster.dist_spec(pos);
            let sx = signed_axis(caster.x as int, pos.x as int, WIDTH as int);
            let sy = signed_axis(caster.y as int, pos.y as int, HEIGHT as int);
            &&& d.x + d.y <= range
            &&& (d.x == 0 || d.y == 0)
            &&& match dir {
                Direction::Up => sy < 0,
                Direction::Down => sy > 0,
                Direction::Left => sx < 0,
                Direction::Right => sx > 0,
            }
        },
    }
}

/// What a coarse board filter says about a candidate tile.
pub open spec fn position_filter_holds_spec(
    f: SpellPositionFilter,
    b: Battle,
    pos: Position,
) -> bool {
    let caster = b.start_tile();
    match f {
        SpellPositionFilter::WithinFive => mag_spec(caster, pos) <= 5,
        SpellPositionFilter::WizardWithinSeven => wizard_at_spec(b, pos) && caster != pos
            && mag_spec(caster, pos) < 8,
        SpellPositionFilter::WithinSeven => mag_spec(caster, pos) <= 7,
        SpellPositionFilter::WithinTen => mag_spec(caster, pos) <= 10,
        SpellPositionFilter::WizardWithinFour => wizard_at_spec(b, pos) && caster != pos
            && mag_spec(caster, pos) < 5,
    }
}

/// Evaluates an area predicate on a candidate tile.
pub fn area_predicate_holds(battle: &Battle, p: AreaPredicate, pos: Position) -> (r: bool)
    requires
        battle.wf(),
        pos.wf(),
    ensures
        r == area_predicate_holds_spec(p, *battle, pos),
{
    let caster = battle.get_current_wizard().position;
    match p {
        AreaPredicate::Never => false,
        AreaPredicate::WithinFive => {
            let d = caster.dist(pos);
            d.x + d.y <= 5
        },
        AreaPredicate::WithinSix => {
            let d = caster.dist(pos);
            d.x + d.y <= 6
        },
        AreaPredicate::ProjectileWithinSix => {
            let d = caster.dist(pos);
            d.x + d.y <= 6 && match battle.get_entity_at(pos) {
                Some(e) => e.is_projectile(),
                None => false,
            }
        },
    }
}

/// Evaluates a pairwise predicate on two picked tiles.
pub fn pair_predicate_holds(battle: &Battle, p: PairPredicate, p1: Position, p2: Position) -> (r:
    bool)
    requires
        battle.wf(),
        p1.wf(),
        p2.wf(),
    ensures
        r == pair_predicate_holds_spec(p, *battle, p1, p2),
{
    match p {
        PairPredicate::SamePosition => p1 == p2,
        PairPredicate::WithinMagnitudeThree => {
            let d = p1.dist(p2);
            d.x + d.y <= 3
        },
        PairPredicate::WithinChebyshevThree => {
            let d = p1.dist(p2);
            let c = if d.x >= d.y {
                d.x
            } else {
                d.y
            };
            c <= 3
        },
        PairPredicate::SameRingAligned => {
            let caster = battle.get_current_wizard().position;
            wall_pair_holds(caster, p1, p2)
        },
        PairPredicate::Disabled => false,
    }
}

/// Evaluates a direction predicate on a chosen direction and tile.
pub fn direction_predicate_holds(
    battle: &Battle,
    p: DirectionPredicate,
    dir: Direction,
    pos: Position,
) -> (r: bool)
    requires
        battle.wf(),
        pos.wf(),
    ensures
        r == direction_predicate_holds_spec(p, *battle, dir, pos),
{
    let caster = battle.get_current_wizard().position;
    match p {
        DirectionPredicate::SingleStep => caster.move_in_direction(dir) == pos,
        DirectionPredicate::AxisLine(range) => {
            let d = caster.dist(pos);
            let sd = caster.signed_dist(pos);
            (d.x + d.y <= range) && (d.x == 0 || d.y == 0) && match dir {
                Direction::Up => sd.1 < 0,
                Direction::Down => sd.1 > 0,
                Direction::Left => sd.0 < 0,
                Direction::Right => sd.0 > 0,
            }
        },
    }
}

/// Evaluates a coarse board filter on a candidate tile.
pub fn position_filter_holds(battle: &Battle, f: SpellPositionFilter, pos: Position) -> (r: bool)
    requires
        battle.wf(),
        pos.wf(),
    ensures
        r == position_filter_holds_spec(f, *battle, pos),
{
    let caster = battle.get_current_wizard().position;
    let d = caster.dist(pos);
    match f {
        SpellPositionFilter::WithinFive => d.x + d.y <= 5,
        SpellPositionFilter::WizardWithinSeven => {
            let occupied = match battle.get_entity_at(pos) {
                Some(e) => e.is_wizard(),
                None => false,
            };
            occupied && !(caster == pos) && d.x + d.y < 8
        },
        SpellPositionFilter::WithinSeven => d.x + d.y <= 7,
        SpellPositionFilter::WithinTen => d.x + d.y <= 10,
        SpellPositionFilter::WizardWithinFour => {
            let occupied = match battle.get_entity_at(pos) {
                Some(e) => e.is_wizard(),
                None => false,
            };
            occupied && !(caster == pos) && d.x + d.y < 5
        },
    }
}

/// Evaluates the wall-spell pair rule.
fn wall_pair_holds(caster: Position, p1: Position, p2: Position) -> (r: bool)
    requires
        caster.wf(),
        p1.wf(),
        p2.wf(),
    ensures
        r == wall_pair_spec(caster, p1, p2),
{
    let d1 = caster.dist(p1);
    let d = if d1.x >= d1.y {
        d1.x
    } else {
        d1.y
    };
    let d2v = caster.dist(p2);
    let d2 = if d2v.x >= d2v.y {
        d2v.x
    } else {
        d2v.y
    };
    if d2 != d {
        return false;
    }
    if d == 0 {
        return true;
    }
    let s1 = ring_coord(caster, p1);
    let s2 = ring_coord(caster, p2);
    let m = 8 * (d as isize);
    let e1 = rem_euclid_isize(s1 - s2, m);
    let e2 = rem_euclid_isize(s2 - s1, m);
    let e = if e1 <= e2 {
        e1
    } else {
        e2
    };
    e <= 2
}

/// Evaluates the ring parameterization.
fn ring_coord(center: Position, other: Position) -> (r: isize)
    requires
        center.wf(),
        other.wf(),
    ensures
        r == ring_coord_spec(center, other),
        -100 <= r <= 100,
{
    let sd = center.signed_dist(other);
    let x = sd.0;
    let y = sd.1;
    if x > y && -x > y {
        let t: isize = 7 * y;
        x - t
    } else if x > y {
        x + y
    } else if -x > y {
        let t: isize = 5 * x;
        -t - y
    } else {
        let t: isize = 3 * y;
        t - x
    }
}

/// A complete targeting input for a spell: nothing, a sequence of
/// picked tiles, or a direction with a target tile.
pub enum SpellTargetInput {
    NoTarget,
    Picks(Vec<Position>),
    Directed(Direction, Position),
}

/// The verdict on a targeting input: `WrongInputKind` if the input
/// shape does not match the spell's targeting kind,
/// `IncompleteSelection` if the number of picked tiles differs from
/// what the spell requires, `PredicateFailed` if a tile is off the
/// board or a validity predicate rejects it, `NotImplemented` for the
/// disabled mana-drain targeting, and success otherwise.  A
/// multi-position spell checks each later pick against the first; a
/// single pick is checked against the caster; zero required picks
/// succeed with no check.
pub open spec fn spell_target_verdict_spec(
    b: Battle,
    spell: Spell,
    input: SpellTargetInput,
) -> Result<(), InvalidSpellTarget> {
    if spell == Spell::ManaDrain {
        Err(InvalidSpellTarget::NotImplemented)
    } else {
        match spell.spell_input_type_spec() {
            SpellInputType::NoTarget(_) => match input {
                SpellTargetInput::NoTarget => Ok(()),
                _ => Err(InvalidSpellTarget::WrongInputKind),
            },
            SpellInputType::Position(count, pred) => match input {
                SpellTargetInput::Picks(v) => if v@.len() != count {
                    Err(InvalidSpellTarget::IncompleteSelection)
                } else if !(forall|j: int| 0 <= j < v@.len() ==> (#[trigger] v@[j]).wf()) {
                    Err(InvalidSpellTarget::PredicateFailed)
                } else if count == 0 {
                    Ok(())
                } else if count == 1 {
                    if pair_predicate_holds_spec(pred, b, b.start_tile(), v@[0]) {
                        Ok(())
                    } else {
                        Err(InvalidSpellTarget::PredicateFailed)
                    }
                } else {
                    if forall|j: int|
                        1 <= j < v@.len() ==> pair_predicate_holds_spec(
                            pred,
                            b,
                            v@[0],
                            #[trigger] v@[j],
                        ) {
                        Ok(())
                    } else {
                        Err(InvalidSpellTarget::PredicateFailed)
                    }
                },
                _ => Err(InvalidSpellTarget::WrongInputKind),
            },
            SpellInputType::Direction(pred) => match input {
                SpellTargetInput::Directed(dir, pos) => if !pos.wf() {
                    Err(InvalidSpellTarget::PredicateFailed)
                } else if direction_predicate_holds_spec(pred, b, dir, pos) {
                    Ok(())
                } else {
                    Err(InvalidSpellTarget::PredicateFailed)
                },
                _ => Err(InvalidSpellTarget::WrongInputKind),
            },
        }
    }
}

/// Validates a complete targeting input against a spell, per the
/// spell's targeting kind and validity predicate.
#[verifier::loop_isolation(false)]
pub fn validate_spell_target(battle: &Battle, spell: Spell, input: &SpellTargetInput) -> (r: Result<
    (),
    InvalidSpellTarget,
>)
    requires
        battle.wf(),
    ensures
        r == spell_target_verdict_spec(*battle, spell, *input),
{
    match spell {
        Spell::ManaDrain => {
            return Err(InvalidSpellTarget::NotImplemented);
        },
        _ => {},
    }
    match spell.spell_input_type() {
        SpellInputType::NoTarget(_) => match input {
            SpellTargetInput::NoTarget => Ok(()),
            _ => Err(InvalidSpellTarget::WrongInputKind),
        },
        SpellInputType::Position(count, pred) => match input {
            SpellTargetInput::Picks(v) => {
                if v.len() != count {
                    return Err(InvalidSpellTarget::IncompleteSelection);
                }
                let mut j: usize = 0;
                while j < v.len()
                    invariant
                        j <= v@.len(),
                        forall|i: int| 0 <= i < j ==> (#[trigger] v@[i]).wf(),
                    decreases v@.len() - j,
                {
                    if !(v[j].x < WIDTH && v[j].y < HEIGHT) {
                        proof {
                            assert(exists|i: int|
                                0 <= i < v@.len() && !(#[trigger] v@[i]).wf());
                        }
                        return Err(InvalidSpellTarget::PredicateFailed);
                    }
                    j = j + 1;
                }
                if count == 0 {
                    return Ok(());
                }
                if count == 1 {
                    let caster = battle.get_current_wizard().position;
                    if pair_predicate_holds(battle, pred, caster, v[0]) {
                        return Ok(());
                    } else {
                        return Err(InvalidSpellTarget::PredicateFailed);
                    }
                }
                let first = v[0];
                let mut j: usize = 1;
                while j < v.len()
                    invariant
                        battle.wf(),
                        1 <= j <= v@.len(),
                        first == v@[0],
                        forall|i: int| 0 <= i < v@.len() ==> (#[trigger] v@[i]).wf(),
                        forall|i: int|
                            1 <= i < j ==> pair_predicate_holds_spec(
                                pred,
                                *battle,
                                v@[0],
                                #[trigger] v@[i],
                            ),
                    decreases v@.len() - j,
                {
                    if !pair_predicate_holds(battle, pred, first, v[j]) {
                        proof {
                            assert(exists|i: int|
                                1 <= i < v@.len() && !pair_predicate_holds_spec(
                                    pred,
                                    *battle,
                                    v@[0],
                                    #[trigger] v@[i],
                                ));
                        }
                        return Err(InvalidSpellTarget::PredicateFailed);
                    }
                    j = j + 1;
                }
                Ok(())
            },
            _ => Err(InvalidSpellTarget::WrongInputKind),
        },
        SpellInputType::Direction(pred) => match input {
            SpellTargetInput::Directed(dir, pos) => {
                if !(pos.x < WIDTH && pos.y < HEIGHT) {
                    return Err(InvalidSpellTarget::PredicateFailed);
                }
                if direction_predicate_holds(battle, pred, *dir, *pos) {
                    Ok(())
                } else {
                    Err(InvalidSpellTarget::PredicateFailed)
                }
            },
            _ => Err(InvalidSpellTarget::WrongInputKind),
        },
    }
}

} // verus!
