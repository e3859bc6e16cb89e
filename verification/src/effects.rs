//! The fixed catalog of status-effect kinds.  Each unit carries a
//! remaining-duration counter per kind; a nonzero counter means the
//! effect is active for that many more turns.

use vstd::prelude::*;

verus! {

/// Number of status-effect kinds; units carry one counter per kind.
pub const EFFECT_COUNT: usize = 4;

/// A status-effect kind.  `Circulation` and `Tornado` each double a
/// unit's movement depth, `AuraOfFire` halves it, and `StoneSkin`
/// halves incoming damage.
#[derive(Clone, Copy, PartialEq, Eq, Debug, Structural)]
pub enum Effects {
    Circulation,
    Tornado,
    AuraOfFire,
    StoneSkin,
}

impl Effects {
    /// The slot of this effect kind in a unit's counter array.
    pub open spec fn index_spec(self) -> int {
        match self {
            Effects::Circulation => 0,
            Effects::Tornado => 1,
            Effects::AuraOfFire => 2,
            Effects::StoneSkin => 3,
        }
    }

    /// The slot of this effect kind in a unit's counter array.
    pub fn index(self) -> (r: usize)
        ensures
            r == self.index_spec(),
            r < EFFECT_COUNT,
    {
        match self {
            Effects::Circulation => 0,
            Effects::Tornado => 1,
            Effects::AuraOfFire => 2,
            Effects::StoneSkin => 3,
        }
    }

    /// The effect kind stored at a counter-array slot, if the slot is in
    /// range.
    pub fn from_index(i: usize) -> (r: Option<Effects>)
        ensures
            match r {
                Some(e) => i < EFFECT_COUNT && e.index_spec() == i,
                None => i >= EFFECT_COUNT,
            },
    {
        match i {
            0 => Some(Effects::Circulation),
            1 => Some(Effects::Tornado),
            2 => Some(Effects::AuraOfFire),
            3 => Some(Effects::StoneSkin),
            _ => None,
        }
    }
}

} // verus!
