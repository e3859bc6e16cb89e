//! The player-selection phase: per-player spell point allocation, and
//! the top-level model that is either still selecting or in battle.

use vstd::prelude::*;

use crate::battle::Battle;
use crate::errors::AllocationInvariantViolated;
use crate::spell::{catalog_spec, Spell, SpellElement, SPELL_COUNT};

verus! {

/// Points each player distributes across the four elements.
pub const SPELL_POINT_POOL: usize = 6;

/// The most points a single element can hold.
pub const ELEMENT_CAP: usize = 4;

/// A player's spell point allocation across the four elements, plus
/// the remaining unallocated pool.  Allocated and pooled points always
/// sum to the full pool, and no element exceeds the per-element cap.
#[derive(Clone, PartialEq, Eq, Debug, Structural)]
pub struct SpellChoice {
    pub water: usize,
    pub fire: usize,
    pub earth: usize,
    pub wind: usize,
    pub unused: usize,
}

impl SpellChoice {
    /// Allocation invariant: each element is within the cap and the
    /// points sum to the full pool.
    pub open spec fn wf(self) -> bool {
        &&& self.water <= ELEMENT_CAP
        &&& self.fire <= ELEMENT_CAP
        &&& self.earth <= ELEMENT_CAP
        &&& self.wind <= ELEMENT_CAP
        &&& self.water + self.fire + self.earth + self.wind + self.unused == SPELL_POINT_POOL
    }

    /// The points allocated to one element.
    pub open spec fn allocation_spec(self, element: SpellElement) -> int {
        match element {
            SpellElement::Water => self.water as int,
            SpellElement::Fire => self.fire as int,
            SpellElement::Earth => self.earth as int,
            SpellElement::Wind => self.wind as int,
        }
    }

    /// Whether the allocation unlocks a spell: the spell's point cost
    /// is at most the allocation in its required element.
    pub open spec fn unlocked_spec(self, spell: Spell) -> bool {
        spell.requirement_spec().1 <= self.allocation_spec(spell.requirement_spec().0)
    }

    /// The unlocked spells among the first `n` catalog entries, in
    /// catalog order.
    pub open spec fn unlocked_prefix(self, n: nat) -> Seq<Spell>
        decreases n,
    {
        if n == 0 {
            Seq::empty()
        } else {
            let prior = self.unlocked_prefix((n - 1) as nat);
            if self.unlocked_spec(catalog_spec()[n - 1]) {
                prior.push(catalog_spec()[n - 1])
            } else {
                prior
            }
        }
    }

    /// The spells this allocation unlocks, in catalog order.
    pub open spec fn unlocked_seq(self) -> Seq<Spell> {
        self.unlocked_prefix(SPELL_COUNT as nat)
    }

    /// The points allocated to one element.
    pub fn allocation(&self, element: SpellElement) -> (r: usize)
        ensures
            r == self.allocation_spec(element),
    {
        match element {
            SpellElement::Water => self.water,
            SpellElement::Fire => self.fire,
            SpellElement::Earth => self.earth,
            SpellElement::Wind => self.wind,
        }
    }

    /// The allocation with one element set to a new value and a new
    /// pool remainder.
    pub open spec fn with_allocation_spec(
        self,
        element: SpellElement,
        points: int,
        unused: int,
    ) -> SpellChoice {
        match element {
            SpellElement::Water => SpellChoice {
                water: points as usize,
                unused: unused as usize,
                ..self
            },
            SpellElement::Fire => SpellChoice {
                fire: points as usize,
                unused: unused as usize,
                ..self
            },
            SpellElement::Earth => SpellChoice {
                earth: points as usize,
                unused: unused as usize,
                ..self
            },
            SpellElement::Wind => SpellChoice {
                wind: points as usize,
                unused: unused as usize,
                ..self
            },
        }
    }

    /// The allocation after a point-change intent; a rejected intent
    /// leaves it unchanged.
    pub open spec fn after_change_spec(self, element: SpellElement, increment: bool) -> SpellChoice {
        if increment {
            if self.allocation_spec(element) < ELEMENT_CAP && self.unused > 0 {
                self.with_allocation_spec(
                    element,
                    self.allocation_spec(element) + 1,
                    self.unused - 1,
                )
            } else {
                self
            }
        } else {
            if self.allocation_spec(element) > 0 {
                self.with_allocation_spec(
                    element,
                    self.allocation_spec(element) - 1,
                    self.unused + 1,
                )
            } else {
                self
            }
        }
    }

    /// Moves one point between the pool and an element.  An increment
    /// is rejected with `ExceedsElementCap` if the element is at the
    /// cap, and with `PoolExhausted` if the pool is empty; a decrement
    /// is rejected with `PoolExhausted` if the element holds no point
    /// to return.  A rejected intent leaves the allocation unchanged.
    pub fn change_point(&mut self, element: SpellElement, increment: bool) -> (r: Result<
        (),
        AllocationInvariantViolated,
    >)
        requires
            old(self).wf(),
        ensures
            final(self).wf(),
            *final(self) == old(self).after_change_spec(element, increment),
            increment && old(self).allocation_spec(element) == ELEMENT_CAP ==> r == Err::<
                (),
                _,
            >(AllocationInvariantViolated::ExceedsElementCap),
            increment && old(self).allocation_spec(element) < ELEMENT_CAP && old(self).unused == 0
                ==> r == Err::<(), _>(AllocationInvariantViolated::PoolExhausted),
            increment && old(self).allocation_spec(element) < ELEMENT_CAP && old(self).unused > 0
                ==> r == Ok::<(), AllocationInvariantViolated>(()),
            !increment && old(self).allocation_spec(element) == 0 ==> r == Err::<
                (),
                _,
            >(AllocationInvariantViolated::PoolExhausted),
            !increment && old(self).allocation_spec(element) > 0 ==> r == Ok::<(), AllocationInvariantViolated>(()),
            r is Err ==> *final(self) == *old(self),
            r is Ok ==> final(self).allocation_spec(element) == old(self).allocation_spec(element)
                + if increment {
                1int
            } else {
                -1int
            },
            r is Ok ==> final(self).unused == old(self).unused + if increment {
                -1int
            } else {
                1int
            },
            forall|other: SpellElement|
                other != element ==> final(self).allocation_spec(other) == old(
                    self,
                ).allocation_spec(other),
    {
        if increment {
            if self.allocation(element) >= ELEMENT_CAP {
                return Err(AllocationInvariantViolated::ExceedsElementCap);
            }
            if self.unused == 0 {
                return Err(AllocationInvariantViolated::PoolExhausted);
            }
            match element {
                SpellElement::Water => {
                    self.water = self.water + 1;
                },
                SpellElement::Fire => {
                    self.fire = self.fire + 1;
                },
                SpellElement::Earth => {
                    self.earth = self.earth + 1;
                },
                SpellElement::Wind => {
                    self.wind = self.wind + 1;
                },
            }
            self.unused = self.unused - 1;
            Ok(())
        } else {
            if self.allocation(element) == 0 {
                return Err(AllocationInvariantViolated::PoolExhausted);
            }
            match element {
                SpellElement::Water => {
                    self.water = self.water - 1;
                },
                SpellElement::Fire => {
                    self.fire = self.fire - 1;
                },
                SpellElement::Earth => {
                    self.earth = self.earth - 1;
                },
                SpellElement::Wind => {
                    self.wind = self.wind - 1;
                },
            }
            self.unused = self.unused + 1;
            Ok(())
        }
    }

    /// The spells this allocation unlocks: exactly those whose point
    /// cost is at most the allocation in their element, in catalog
    /// order.
    pub fn unlocked_spells(&self) -> (r: Vec<Spell>)
        ensures
            r@ == self.unlocked_seq(),
    {
        let catalog = Spell::all();
        let mut unlocked: Vec<Spell> = Vec::new();
        let mut i: usize = 0;
        while i < SPELL_COUNT
            invariant
                i <= SPELL_COUNT,
                catalog@ == catalog_spec(),
                unlocked@ == self.unlocked_prefix(i as nat),
            decreases SPELL_COUNT - i,
        {
            let spell = catalog[i];
            let (element, cost) = spell.requirement();
            if cost <= self.allocation(element) {
                unlocked.push(spell);
            }
            i = i + 1;
        }
        unlocked
    }
}

impl Default for SpellChoice {
    /// A fresh allocation: nothing allocated, the full pool unused.
    fn default() -> (r: Self)
        ensures
            r == (SpellChoice { water: 0, fire: 0, earth: 0, wind: 0, unused: SPELL_POINT_POOL }),
            r.wf(),
    {
        SpellChoice { water: 0, fire: 0, earth: 0, wind: 0, unused: SPELL_POINT_POOL }
    }
}

/// A spell's membership in the unlocked list is exactly the unlock
/// predicate: the list holds a spell if and only if its cost is within
/// the allocation of its element.
pub proof fn lemma_unlocked_seq_contains(choice: SpellChoice, spell: Spell)
    ensures
        choice.unlocked_seq().contains(spell) <==> choice.unlocked_spec(spell),
{
    crate::spell::lemma_catalog_complete(spell);
    lemma_unlocked_prefix_contains(choice, SPELL_COUNT as nat, spell);
}

proof fn lemma_unlocked_prefix_contains(choice: SpellChoice, n: nat, spell: Spell)
    requires
        n <= SPELL_COUNT,
    ensures
        choice.unlocked_prefix(n).contains(spell) <==> (exists|i: int|
            0 <= i < n && catalog_spec()[i] == spell && choice.unlocked_spec(spell)),
    decreases n,
{
    if n > 0 {
        lemma_unlocked_prefix_contains(choice, (n - 1) as nat, spell);
        let prior = choice.unlocked_prefix((n - 1) as nat);
        let last = catalog_spec()[n - 1];
        if choice.unlocked_spec(last) {
            assert(choice.unlocked_prefix(n) == prior.push(last));
            if prior.contains(spell) {
                let i = choose|i: int| 0 <= i < prior.len() && prior[i] == spell;
                assert(prior.push(last)[i] == spell);
                assert(prior.push(last).contains(spell));
            }
            if prior.push(last).contains(spell) {
                let i = choose|i: int|
                    0 <= i < prior.push(last).len() && prior.push(last)[i] == spell;
                if i < prior.len() {
                    assert(prior[i] == spell);
                } else {
                    assert(spell == last);
                }
            }
            assert(prior.push(last)[prior.len() as int] == last);
        }
    }
}

/// One allocation per player; the battle starts once every player has
/// emptied their pool.
#[derive(Clone, Debug)]
pub struct SpellSelect {
    pub players: Vec<SpellChoice>,
}

impl SpellSelect {
    /// Two players, each with a valid allocation.
    pub open spec fn wf(self) -> bool {
        &&& self.players@.len() == 2
        &&& forall|i: int| 0 <= i < 2 ==> (#[trigger] self.players@[i]).wf()
    }

    /// Whether every player has allocated their whole pool.
    pub open spec fn all_allocated_spec(self) -> bool {
        forall|i: int| 0 <= i < self.players@.len() ==> (#[trigger] self.players@[i]).unused == 0
    }

    /// Whether every player has allocated their whole pool, enabling
    /// the transition into battle.
    pub fn all_allocated(&self) -> (r: bool)
        ensures
            r == self.all_allocated_spec(),
    {
        let mut i: usize = 0;
        while i < self.players.len()
            invariant
                i <= self.players@.len(),
                forall|k: int| 0 <= k < i ==> (#[trigger] self.players@[k]).unused == 0,
            decreases self.players@.len() - i,
        {
            if self.players[i].unused != 0 {
                return false;
            }
            i = i + 1;
        }
        true
    }
}

/// The top-level state: the pre-battle selection phase or the battle
/// itself.
pub enum Model {
    Battle(Battle),
    SpellSelect(SpellSelect),
}

impl Default for Model {
    /// A fresh selection phase with two untouched allocations.
    fn default() -> (r: Self)
        ensures
            match r {
                Model::SpellSelect(s) => {
                    &&& s.players@.len() == 2
                    &&& forall|i: int|
                        0 <= i < 2 ==> #[trigger] s.players@[i] == SpellChoice {
                            water: 0,
                            fire: 0,
                            earth: 0,
                            wind: 0,
                            unused: SPELL_POINT_POOL,
                        }
                    &&& s.wf()
                },
                Model::Battle(_) => false,
            },
    {
        let players: Vec<SpellChoice> = vec![SpellChoice::default(), SpellChoice::default()];
        Model::SpellSelect(SpellSelect { players })
    }
}

} // verus!
