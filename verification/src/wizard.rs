//! Combat unit state: team, health, mana, position, status-effect
//! counters and unlocked spells.

use vstd::prelude::*;

use crate::effects::{Effects, EFFECT_COUNT};
use crate::position::Position;
use crate::spell::Spell;

verus! {

/// One of the two sides a unit belongs to.
#[derive(Clone, Copy, PartialEq, Eq, Debug, Structural)]
pub enum Team {
    Red,
    Blue,
}

/// A player-controlled combatant.  Health has a floor of 0; death is
/// the predicate `health == 0`, not removal from the unit list.
pub struct Wizard {
    pub team: Team,
    pub health: usize,
    pub mana: usize,
    pub effects: [usize; EFFECT_COUNT],
    pub position: Position,
    pub spells: Vec<Spell>,
}

impl Wizard {
    /// The unit's position is in canonical wrapped form.
    pub open spec fn wf(self) -> bool {
        self.position.wf()
    }

    /// Whether the effect's remaining-turns counter is nonzero.
    pub open spec fn has_effect_spec(self, effect: Effects) -> bool {
        self.effects[effect.index_spec()] > 0
    }

    /// How many tiles of movement depth the unit gets this turn: the
    /// base depth of 2 is doubled by `Circulation`, doubled again by
    /// `Tornado`, then halved by `AuraOfFire`, in that fixed order.
    pub open spec fn movement_depth_spec(self) -> int {
        let doubled = if self.has_effect_spec(Effects::Circulation) {
            4int
        } else {
            2int
        };
        let boosted = if self.has_effect_spec(Effects::Tornado) {
            doubled * 2
        } else {
            doubled
        };
        if self.has_effect_spec(Effects::AuraOfFire) {
            boosted / 2
        } else {
            boosted
        }
    }

    /// The damage the unit actually takes from a hit: halved (rounding
    /// down) while `StoneSkin` is active.
    pub open spec fn damage_taken_spec(self, damage: int) -> int {
        if self.has_effect_spec(Effects::StoneSkin) {
            damage / 2
        } else {
            damage
        }
    }

    /// Whether the effect is currently active on this unit.
    pub fn has_effect(&self, effect: Effects) -> (r: bool)
        ensures
            r == self.has_effect_spec(effect),
    {
        self.effects[effect.index()] > 0
    }

    /// Ticks every effect counter down one turn; counters saturate at
    /// zero.
    pub fn decrement_effects(&mut self)
        ensures
            forall|i: int|
                0 <= i < EFFECT_COUNT ==> final(self).effects[i] == if old(self).effects[i] > 0 {
                    old(self).effects[i] - 1
                } else {
                    0int
                },
            final(self).team == old(self).team,
            final(self).health == old(self).health,
            final(self).mana == old(self).mana,
            final(self).position == old(self).position,
            final(self).spells == old(self).spells,
    {
        let e0 = self.effects[0];
        let e1 = self.effects[1];
        let e2 = self.effects[2];
        let e3 = self.effects[3];
        self.effects = [
            if e0 > 0 {
                e0 - 1
            } else {
                0
            },
            if e1 > 0 {
                e1 - 1
            } else {
                0
            },
            if e2 > 0 {
                e2 - 1
            } else {
                0
            },
            if e3 > 0 {
                e3 - 1
            } else {
                0
            },
        ];
    }

    /// Sets the remaining-turns counter of one effect, leaving the
    /// other counters and all other unit state unchanged.
    pub fn apply_effect(&mut self, effect: Effects, turns: usize)
        ensures
            final(self).effects[effect.index_spec()] == turns,
            forall|i: int|
                0 <= i < EFFECT_COUNT && i != effect.index_spec() ==> final(self).effects[i] == old(
                    self,
                ).effects[i],
            final(self).team == old(self).team,
            final(self).health == old(self).health,
            final(self).mana == old(self).mana,
            final(self).position == old(self).position,
            final(self).spells == old(self).spells,
    {
        let i = effect.index();
        self.effects = [
            if i == 0 {
                turns
            } else {
                self.effects[0]
            },
            if i == 1 {
                turns
            } else {
                self.effects[1]
            },
            if i == 2 {
                turns
            } else {
                self.effects[2]
            },
            if i == 3 {
                turns
            } else {
                self.effects[3]
            },
        ];
    }

    /// Applies a hit: the damage is halved (rounding down) while
    /// `StoneSkin` is active, and health saturates at 0, never going
    /// negative.
    pub fn take_damage(&mut self, damage: usize)
        ensures
            final(self).health == if old(self).damage_taken_spec(damage as int) >= old(
                self,
            ).health {
                0int
            } else {
                old(self).health - old(self).damage_taken_spec(damage as int)
            },
            final(self).team == old(self).team,
            final(self).mana == old(self).mana,
            final(self).effects == old(self).effects,
            final(self).position == old(self).position,
            final(self).spells == old(self).spells,
    {
        let damage_taken = if self.has_effect(Effects::StoneSkin) {
            damage / 2
        } else {
            damage
        };
        self.health = if damage_taken >= self.health {
            0
        } else {
            self.health - damage_taken
        };
    }

    /// Relocates the unit; the battle keeps board occupancy in step.
    pub fn set_position(&mut self, position: Position)
        ensures
            final(self).position == position,
            final(self).team == old(self).team,
            final(self).health == old(self).health,
            final(self).mana == old(self).mana,
            final(self).effects == old(self).effects,
            final(self).spells == old(self).spells,
    {
        self.position = position;
    }

    /// Death is a predicate on health, not deletion from the roster.
    pub fn is_dead(&self) -> (r: bool)
        ensures
            r == (self.health == 0),
    {
        self.health == 0
    }

    /// The unit's movement depth for this turn, derived from its
    /// active effects.
    pub fn movement_depth(&self) -> (r: usize)
        ensures
            r == self.movement_depth_spec(),
            1 <= r <= 8,
    {
        let mut depth: usize = 2;
        if self.has_effect(Effects::Circulation) {
            depth = depth * 2;
        }
        if self.has_effect(Effects::Tornado) {
            depth = depth * 2;
        }
        if self.has_effect(Effects::AuraOfFire) {
            depth = depth / 2;
        }
        depth
    }
}

/// Movement depth is monotone in mobility effects: a unit that keeps
/// every mobility boost of another and carries no extra mobility
/// reduction moves at least as deep.  In particular a boost effect
/// never shrinks the movement depth and a reduction never grows it.
pub proof fn lemma_movement_depth_monotone(w1: Wizard, w2: Wizard)
    requires
        w1.has_effect_spec(Effects::Circulation) ==> w2.has_effect_spec(Effects::Circulation),
        w1.has_effect_spec(Effects::Tornado) ==> w2.has_effect_spec(Effects::Tornado),
        w2.has_effect_spec(Effects::AuraOfFire) ==> w1.has_effect_spec(Effects::AuraOfFire),
    ensures
        w1.movement_depth_spec() <= w2.movement_depth_spec(),
{
}

} // verus!
