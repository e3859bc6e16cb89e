//! Transient projectile state: position, remaining damage, flight
//! parameters and passability.

use vstd::prelude::*;

use crate::position::{Direction, Position};
use crate::wizard::Team;

verus! {

/// What kind of projectile a spell produced.
#[derive(Clone, Copy, PartialEq, Eq, Debug, Structural)]
pub enum ProjectileType {
    Fireball,
    Spike,
    Boulder,
    Wall,
    WindBolt,
}

/// A projectile in flight.  An impassable projectile blocks movement
/// into its tile; a passable one does not block but still damages a
/// unit entering its tile.
pub struct Projectile {
    pub position: Position,
    pub projectile_type: ProjectileType,
    pub damage: usize,
    pub direction: Direction,
    pub owner: Team,
    pub guiding: bool,
    pub speed: usize,
    pub passable: bool,
    pub lifetime: usize,
}

impl Projectile {
    /// The projectile's position is in canonical wrapped form.
    pub open spec fn wf(self) -> bool {
        self.position.wf()
    }

    /// Builds a projectile from its full flight state.
    pub fn new(
        position: Position,
        projectile_type: ProjectileType,
        damage: usize,
        direction: Direction,
        owner: Team,
        guiding: bool,
        speed: usize,
        passable: bool,
        lifetime: usize,
    ) -> (r: Projectile)
        ensures
            r == (Projectile {
                position,
                projectile_type,
                damage,
                direction,
                owner,
                guiding,
                speed,
                passable,
                lifetime,
            }),
    {
        Projectile {
            position,
            projectile_type,
            damage,
            direction,
            owner,
            guiding,
            speed,
            passable,
            lifetime,
        }
    }

    /// Wears the projectile down: its remaining damage drops by double
    /// the given amount, saturating at zero.
    pub fn take_damage(&mut self, damage: usize)
        ensures
            final(self).damage == if 2 * (damage as int) >= old(self).damage {
                0int
            } else {
                old(self).damage - 2 * (damage as int)
            },
            final(self).position == old(self).position,
            final(self).projectile_type == old(self).projectile_type,
            final(self).direction == old(self).direction,
            final(self).owner == old(self).owner,
            final(self).guiding == old(self).guiding,
            final(self).speed == old(self).speed,
            final(self).passable == old(self).passable,
            final(self).lifetime == old(self).lifetime,
    {
        self.damage = if damage <= self.damage / 2 {
            self.damage - 2 * damage
        } else {
            0
        };
    }
}

} // verus!
