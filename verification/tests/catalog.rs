//! The spell catalog: requirements, targeting kinds and coarse filters.

use wizard_fight::spell::{
    AreaPredicate, DirectionPredicate, PairPredicate, Spell, SpellElement, SpellInputType,
    SpellPositionFilter,
};

#[test]
fn spell_requirements() {
    let actual: Vec<(SpellElement, usize)> =
        Spell::all().iter().map(|spell| spell.requirement()).collect();
    let expected: Vec<(SpellElement, usize)> = SpellElement::all()
        .iter()
        .flat_map(|ele| (1..=4).map(move |i| (*ele, i)))
        .collect();
    assert_eq!(actual, expected);
}

#[test]
fn catalog_order_and_length() {
    let spells = Spell::all();
    assert_eq!(spells.len(), 16);
    assert_eq!(spells[0], Spell::IncreasedCirculation);
    assert_eq!(spells[3], Spell::Stagnation);
    assert_eq!(spells[4], Spell::Flame);
    assert_eq!(spells[11], Spell::Wall);
    assert_eq!(spells[15], Spell::Tornado);
}

#[test]
fn requirement_values() {
    assert_eq!(
        Spell::IncreasedCirculation.requirement(),
        (SpellElement::Water, 1)
    );
    assert_eq!(Spell::WaterSpear.requirement(), (SpellElement::Water, 2));
    assert_eq!(Spell::ManaDrain.requirement(), (SpellElement::Water, 3));
    assert_eq!(Spell::Stagnation.requirement(), (SpellElement::Water, 4));
    assert_eq!(Spell::Flame.requirement(), (SpellElement::Fire, 1));
    assert_eq!(Spell::AuraOfFire.requirement(), (SpellElement::Fire, 4));
    assert_eq!(Spell::StoneSkin.requirement(), (SpellElement::Earth, 1));
    assert_eq!(Spell::Boulder.requirement(), (SpellElement::Earth, 3));
    assert_eq!(Spell::WindBolt.requirement(), (SpellElement::Wind, 1));
    assert_eq!(Spell::Tornado.requirement(), (SpellElement::Wind, 4));
}

#[test]
fn requirements_unique() {
    let reqs: Vec<(SpellElement, usize)> =
        Spell::all().iter().map(|spell| spell.requirement()).collect();
    for i in 0..reqs.len() {
        for j in 0..i {
            assert_ne!(reqs[i], reqs[j]);
        }
    }
}

#[test]
fn targeting_kinds() {
    assert_eq!(
        Spell::IncreasedCirculation.spell_input_type(),
        SpellInputType::NoTarget(AreaPredicate::Never)
    );
    assert_eq!(
        Spell::StoneSkin.spell_input_type(),
        SpellInputType::NoTarget(AreaPredicate::Never)
    );
    assert_eq!(
        Spell::AuraOfFire.spell_input_type(),
        SpellInputType::NoTarget(AreaPredicate::WithinSix)
    );
    assert_eq!(
        Spell::RepulsiveBlast.spell_input_type(),
        SpellInputType::NoTarget(AreaPredicate::ProjectileWithinSix)
    );
    assert_eq!(
        Spell::Tornado.spell_input_type(),
        SpellInputType::NoTarget(AreaPredicate::WithinFive)
    );
    assert_eq!(
        Spell::Fireball.spell_input_type(),
        SpellInputType::Direction(DirectionPredicate::SingleStep)
    );
    assert_eq!(
        Spell::Boulder.spell_input_type(),
        SpellInputType::Direction(DirectionPredicate::SingleStep)
    );
    assert_eq!(
        Spell::WindBolt.spell_input_type(),
        SpellInputType::Direction(DirectionPredicate::SingleStep)
    );
    assert_eq!(
        Spell::Glide.spell_input_type(),
        SpellInputType::Direction(DirectionPredicate::SingleStep)
    );
    assert_eq!(
        Spell::WaterSpear.spell_input_type(),
        SpellInputType::Direction(DirectionPredicate::AxisLine(6))
    );
    assert_eq!(
        Spell::Flame.spell_input_type(),
        SpellInputType::Direction(DirectionPredicate::AxisLine(7))
    );
    assert_eq!(
        Spell::Stagnation.spell_input_type(),
        SpellInputType::Position(1, PairPredicate::SamePosition)
    );
    assert_eq!(
        Spell::Explosion.spell_input_type(),
        SpellInputType::Position(2, PairPredicate::WithinMagnitudeThree)
    );
    assert_eq!(
        Spell::Spikes.spell_input_type(),
        SpellInputType::Position(3, PairPredicate::WithinChebyshevThree)
    );
    assert_eq!(
        Spell::Wall.spell_input_type(),
        SpellInputType::Position(0, PairPredicate::SameRingAligned)
    );
    assert_eq!(
        Spell::ManaDrain.spell_input_type(),
        SpellInputType::Position(4, PairPredicate::Disabled)
    );
}

#[test]
fn position_filters() {
    assert_eq!(
        Spell::Stagnation.position_filter(),
        Some(SpellPositionFilter::WizardWithinSeven)
    );
    assert_eq!(
        Spell::Explosion.position_filter(),
        Some(SpellPositionFilter::WithinSeven)
    );
    assert_eq!(
        Spell::Spikes.position_filter(),
        Some(SpellPositionFilter::WithinTen)
    );
    assert_eq!(
        Spell::Wall.position_filter(),
        Some(SpellPositionFilter::WithinFive)
    );
    assert_eq!(
        Spell::ManaDrain.position_filter(),
        Some(SpellPositionFilter::WizardWithinFour)
    );
    assert_eq!(Spell::Fireball.position_filter(), None);
    assert_eq!(Spell::Tornado.position_filter(), None);
}
