//! The spell catalog: each spell's elemental requirement, its
//! targeting-input kind, and the identifiers of the geometric validity
//! predicates and coarse board filters attached to it.

use vstd::prelude::*;

verus! {

/// Number of spells in the catalog: four per element.
pub const SPELL_COUNT: usize = 16;

/// One of the four magic categories gating spell access.
#[derive(Clone, Copy, PartialEq, Eq, Debug, Structural)]
pub enum SpellElement {
    Water,
    Fire,
    Earth,
    Wind,
}

/// The spell catalog, in fixed order: four water spells, four fire
/// spells, four earth spells, four wind spells, each block in ascending
/// point cost.
#[derive(Clone, Copy, PartialEq, Eq, Debug, Structural)]
pub enum Spell {
    IncreasedCirculation,
    WaterSpear,
    ManaDrain,
    Stagnation,
    Flame,
    Fireball,
    Explosion,
    AuraOfFire,
    StoneSkin,
    Spikes,
    Boulder,
    Wall,
    WindBolt,
    Glide,
    RepulsiveBlast,
    Tornado,
}

/// Validity predicate attached to a no-target (area) spell; it decides
/// which tiles the spell affects, for highlighting only.
#[derive(Clone, Copy, PartialEq, Eq, Debug, Structural)]
pub enum AreaPredicate {
    /// No tile is ever affected (instant self-buffs).
    Never,
    /// Tiles within wrapped Manhattan distance 5 of the caster.
    WithinFive,
    /// Tiles within wrapped Manhattan distance 6 of the caster.
    WithinSix,
    /// Tiles within wrapped Manhattan distance 6 of the caster that
    /// hold a projectile.
    ProjectileWithinSix,
}

/// Pairwise validity predicate attached to a multi-position spell; it
/// is checked between the first picked tile and each later pick.
#[derive(Clone, Copy, PartialEq, Eq, Debug, Structural)]
pub enum PairPredicate {
    /// The two positions must be identical.
    SamePosition,
    /// Wrapped Manhattan distance (sum of axis distances) at most 3.
    WithinMagnitudeThree,
    /// Wrapped Chebyshev distance (max of axis distances) at most 3.
    WithinChebyshevThree,
    /// Both positions on the same Chebyshev ring around the caster and
    /// within a small angular tolerance along that ring.
    SameRingAligned,
    /// Never valid: the spell's targeting is not implemented.
    Disabled,
}

/// Validity predicate attached to a direction-gated spell.
#[derive(Clone, Copy, PartialEq, Eq, Debug, Structural)]
pub enum DirectionPredicate {
    /// The only legal tile is exactly one step from the caster in the
    /// chosen direction.
    SingleStep,
    /// The tile must be axis-aligned with the caster, within the given
    /// wrapped range, on the side the chosen direction points to.
    AxisLine(usize),
}

/// The shape of input a spell requires, with the identifier of its
/// validity predicate embedded.
#[derive(Clone, Copy, PartialEq, Eq, Debug, Structural)]
pub enum SpellInputType {
    /// No explicit tile selection; the predicate drives area
    /// highlighting only.
    NoTarget(AreaPredicate),
    /// A fixed number of tiles picked in sequence, validated pairwise.
    Position(usize, PairPredicate),
    /// A cardinal direction plus a target tile on the trajectory.
    Direction(DirectionPredicate),
}

/// Coarse board-wide filter answering "could this tile ever be a legal
/// target for this spell class"; used for cheap highlighting and for
/// gating tile selection.
#[derive(Clone, Copy, PartialEq, Eq, Debug, Structural)]
pub enum SpellPositionFilter {
    /// Wrapped Manhattan distance at most 5 from the caster.
    WithinFive,
    /// A tile other than the caster's own holding a unit, within
    /// wrapped Manhattan distance 7.
    WizardWithinSeven,
    /// Wrapped Manhattan distance at most 7 from the caster.
    WithinSeven,
    /// Wrapped Manhattan distance at most 10 from the caster.
    WithinTen,
    /// A tile other than the caster's own holding a unit, within
    /// wrapped Manhattan distance 4.
    WizardWithinFour,
}

impl Spell {
    /// The position of this spell in the catalog.
    pub open spec fn index_spec(self) -> int {
        match self {
            Spell::IncreasedCirculation => 0,
            Spell::WaterSpear => 1,
            Spell::ManaDrain => 2,
            Spell::Stagnation => 3,
            Spell::Flame => 4,
            Spell::Fireball => 5,
            Spell::Explosion => 6,
            Spell::AuraOfFire => 7,
            Spell::StoneSkin => 8,
            Spell::Spikes => 9,
            Spell::Boulder => 10,
            Spell::Wall => 11,
            Spell::WindBolt => 12,
            Spell::Glide => 13,
            Spell::RepulsiveBlast => 14,
            Spell::Tornado => 15,
        }
    }

    /// The element and point cost this spell requires: spells are laid
    /// out in blocks of four per element, with costs 1 through 4 inside
    /// each block.
    pub open spec fn requirement_spec(self) -> (SpellElement, int) {
        (element_of_block(self.index_spec() / 4), self.index_spec() % 4 + 1)
    }

    /// The elemental requirement of this spell: the element and the
    /// number of points in that element a unit needs to use it.
    pub fn requirement(self) -> (r: (SpellElement, usize))
        ensures
            r.0 == self.requirement_spec().0,
            r.1 == self.requirement_spec().1,
            1 <= r.1 <= 4,
    {
        match self {
            Spell::IncreasedCirculation => (SpellElement::Water, 1),
            Spell::WaterSpear => (SpellElement::Water, 2),
            Spell::ManaDrain => (SpellElement::Water, 3),
            Spell::Stagnation => (SpellElement::Water, 4),
            Spell::Flame => (SpellElement::Fire, 1),
            Spell::Fireball => (SpellElement::Fire, 2),
            Spell::Explosion => (SpellElement::Fire, 3),
            Spell::AuraOfFire => (SpellElement::Fire, 4),
            Spell::StoneSkin => (SpellElement::Earth, 1),
            Spell::Spikes => (SpellElement::Earth, 2),
            Spell::Boulder => (SpellElement::Earth, 3),
            Spell::Wall => (SpellElement::Earth, 4),
            Spell::WindBolt => (SpellElement::Wind, 1),
            Spell::Glide => (SpellElement::Wind, 2),
            Spell::RepulsiveBlast => (SpellElement::Wind, 3),
            Spell::Tornado => (SpellElement::Wind, 4),
        }
    }

    /// The targeting-input kind of this spell, with its validity
    /// predicate identifier.
    pub open spec fn spell_input_type_spec(self) -> SpellInputType {
        match self {
            Spell::IncreasedCirculation => SpellInputType::NoTarget(AreaPredicate::Never),
            Spell::StoneSkin => SpellInputType::NoTarget(AreaPredicate::Never),
            Spell::AuraOfFire => SpellInputType::NoTarget(AreaPredicate::WithinSix),
            Spell::RepulsiveBlast => SpellInputType::NoTarget(AreaPredicate::ProjectileWithinSix),
            Spell::Tornado => SpellInputType::NoTarget(AreaPredicate::WithinFive),
            Spell::Fireball => SpellInputType::Direction(DirectionPredicate::SingleStep),
            Spell::Boulder => SpellInputType::Direction(DirectionPredicate::SingleStep),
            Spell::WindBolt => SpellInputType::Direction(DirectionPredicate::SingleStep),
            Spell::Glide => SpellInputType::Direction(DirectionPredicate::SingleStep),
            Spell::WaterSpear => SpellInputType::Direction(DirectionPredicate::AxisLine(6)),
            Spell::Flame => SpellInputType::Direction(DirectionPredicate::AxisLine(7)),
            Spell::Stagnation => SpellInputType::Position(1, PairPredicate::SamePosition),
            Spell::Explosion => SpellInputType::Position(2, PairPredicate::WithinMagnitudeThree),
            Spell::Spikes => SpellInputType::Position(3, PairPredicate::WithinChebyshevThree),
            Spell::Wall => SpellInputType::Position(0, PairPredicate::SameRingAligned),
            Spell::ManaDrain => SpellInputType::Position(4, PairPredicate::Disabled),
        }
    }

    /// The targeting-input kind of this spell.
    pub fn spell_input_type(self) -> (r: SpellInputType)
        ensures
            r == self.spell_input_type_spec(),
    {
        match self {
            Spell::IncreasedCirculation => SpellInputType::NoTarget(AreaPredicate::Never),
            Spell::StoneSkin => SpellInputType::NoTarget(AreaPredicate::Never),
            Spell::AuraOfFire => SpellInputType::NoTarget(AreaPredicate::WithinSix),
            Spell::RepulsiveBlast => SpellInputType::NoTarget(AreaPredicate::ProjectileWithinSix),
            Spell::Tornado => SpellInputType::NoTarget(AreaPredicate::WithinFive),
            Spell::Fireball => SpellInputType::Direction(DirectionPredicate::SingleStep),
            Spell::Boulder => SpellInputType::Direction(DirectionPredicate::SingleStep),
            Spell::WindBolt => SpellInputType::Direction(DirectionPredicate::SingleStep),
            Spell::Glide => SpellInputType::Direction(DirectionPredicate::SingleStep),
            Spell::WaterSpear => SpellInputType::Direction(DirectionPredicate::AxisLine(6)),
            Spell::Flame => SpellInputType::Direction(DirectionPredicate::AxisLine(7)),
            Spell::Stagnation => SpellInputType::Position(1, PairPredicate::SamePosition),
            Spell::Explosion => SpellInputType::Position(2, PairPredicate::WithinMagnitudeThree),
            Spell::Spikes => SpellInputType::Position(3, PairPredicate::WithinChebyshevThree),
            Spell::Wall => SpellInputType::Position(0, PairPredicate::SameRingAligned),
            Spell::ManaDrain => SpellInputType::Position(4, PairPredicate::Disabled),
        }
    }

    /// The coarse board filter of a multi-position spell, used to gate
    /// tile selection; `None` for the other targeting kinds.
    pub open spec fn position_filter_spec(self) -> Option<SpellPositionFilter> {
        match self {
            Spell::Stagnation => Some(SpellPositionFilter::WizardWithinSeven),
            Spell::Explosion => Some(SpellPositionFilter::WithinSeven),
            Spell::Spikes => Some(SpellPositionFilter::WithinTen),
            Spell::Wall => Some(SpellPositionFilter::WithinFive),
            Spell::ManaDrain => Some(SpellPositionFilter::WizardWithinFour),
            _ => None,
        }
    }

    /// The coarse board filter of a multi-position spell.
    pub fn position_filter(self) -> (r: Option<SpellPositionFilter>)
        ensures
            r == self.position_filter_spec(),
    {
        match self {
            Spell::Stagnation => Some(SpellPositionFilter::WizardWithinSeven),
            Spell::Explosion => Some(SpellPositionFilter::WithinSeven),
            Spell::Spikes => Some(SpellPositionFilter::WithinTen),
            Spell::Wall => Some(SpellPositionFilter::WithinFive),
            Spell::ManaDrain => Some(SpellPositionFilter::WizardWithinFour),
            _ => None,
        }
    }

    /// The whole catalog, in catalog order.
    pub fn all() -> (r: Vec<Spell>)
        ensures
            r@ == catalog_spec(),
            r@.len() == SPELL_COUNT,
    {
        let spells: Vec<Spell> = vec![
            Spell::IncreasedCirculation,
            Spell::WaterSpear,
            Spell::ManaDrain,
            Spell::Stagnation,
            Spell::Flame,
            Spell::Fireball,
            Spell::Explosion,
            Spell::AuraOfFire,
            Spell::StoneSkin,
            Spell::Spikes,
            Spell::Boulder,
            Spell::Wall,
            Spell::WindBolt,
            Spell::Glide,
            Spell::RepulsiveBlast,
            Spell::Tornado,
        ];
        proof {
            assert(spells@ =~= catalog_spec());
        }
        spells
    }
}

impl SpellElement {
    /// The position of this element in the fixed element order.
    pub open spec fn index_spec(self) -> int {
        match self {
            SpellElement::Water => 0,
            SpellElement::Fire => 1,
            SpellElement::Earth => 2,
            SpellElement::Wind => 3,
        }
    }

    /// The four elements, in fixed order.
    pub fn all() -> (r: Vec<SpellElement>)
        ensures
            r@.len() == 4,
            forall|i: int| 0 <= i < 4 ==> (#[trigger] r@[i]).index_spec() == i,
    {
        vec![SpellElement::Water, SpellElement::Fire, SpellElement::Earth, SpellElement::Wind]
    }
}

/// The element owning the catalog block with the given index.
pub open spec fn element_of_block(block: int) -> SpellElement {
    if block == 0 {
        SpellElement::Water
    } else if block == 1 {
        SpellElement::Fire
    } else if block == 2 {
        SpellElement::Earth
    } else {
        SpellElement::Wind
    }
}

/// The spell catalog as a sequence, in catalog order.
pub open spec fn catalog_spec() -> Seq<Spell> {
    seq![
        Spell::IncreasedCirculation,
        Spell::WaterSpear,
        Spell::ManaDrain,
        Spell::Stagnation,
        Spell::Flame,
        Spell::Fireball,
        Spell::Explosion,
        Spell::AuraOfFire,
        Spell::StoneSkin,
        Spell::Spikes,
        Spell::Boulder,
        Spell::Wall,
        Spell::WindBolt,
        Spell::Glide,
        Spell::RepulsiveBlast,
        Spell::Tornado,
    ]
}

/// The catalog lists every spell at the slot of its own index, so the
/// catalog order and the per-spell index agree.
pub proof fn lemma_catalog_indexes()
    ensures
        catalog_spec().len() == SPELL_COUNT,
        forall|i: int|
            0 <= i < SPELL_COUNT ==> (#[trigger] catalog_spec()[i]).index_spec() == i,
{
}

/// Every spell occurs in the catalog, at its own index.
pub proof fn lemma_catalog_complete(s: Spell)
    ensures
        0 <= s.index_spec() < SPELL_COUNT,
        catalog_spec()[s.index_spec()] == s,
{
}

/// Enumerating (element, cost) requirement pairs in catalog order
/// yields the costs 1 through 4 for each of the four elements in turn:
/// the requirement of the spell at catalog slot `i` is the element of
/// block `i / 4` with cost `i % 4 + 1`.
pub proof fn lemma_catalog_requirements()
    ensures
        forall|i: int|
            0 <= i < SPELL_COUNT ==> (#[trigger] catalog_spec()[i]).requirement_spec() == (
            element_of_block(i / 4),
            i % 4 + 1,
        ),
{
}

/// No two distinct spells share a requirement: each (element, cost)
/// pair appears exactly once over the catalog.
pub proof fn lemma_requirement_injective(s1: Spell, s2: Spell)
    requires
        s1.requirement_spec() == s2.requirement_spec(),
    ensures
        s1 == s2,
{
}

/// Every (element, cost) pair with cost 1 through 4 is the requirement
/// of some spell.
pub proof fn lemma_requirement_covers(element: SpellElement, cost: int)
    requires
        1 <= cost <= 4,
    ensures
        exists|s: Spell| (#[trigger] s.requirement_spec()) == (element, cost),
{
    let i = element.index_spec() * 4 + (cost - 1);
    let s = catalog_spec()[i];
    lemma_catalog_requirements();
    assert(s.requirement_spec() == (element, cost));
}

} // verus!
