//! The battle orchestrator: owns the board, units and projectiles,
//! keeps board occupancy and per-entity positions consistent, computes
//! the reachable-tile set for the acting unit, and validates moves.

use vstd::prelude::*;

use crate::board::{
    cell_index, cell_position, lemma_cell_index_of_position, lemma_position_of_cell_index, Board,
    Entity, CELLS, HEIGHT, WIDTH,
};
use crate::effects::Effects;
use crate::errors::IllegalMove;
use crate::model::{SpellChoice, SpellSelect};
use crate::position::{Direction, Position};
use crate::projectile::Projectile;
use crate::wizard::{Team, Wizard};

verus! {

/// Starting health of every unit.
pub const START_HEALTH: usize = 100;

/// Starting mana of every unit.
pub const START_MANA: usize = 100;

/// A running battle.  The board, the unit list and the projectile list
/// are kept consistent: every unit sits on the board at its own stored
/// position, and every occupied cell points back at an entity stored
/// at that cell's position.
pub struct Battle {
    board: Board,
    wizards: Vec<Wizard>,
    current_player: usize,
    projectiles: Vec<Projectile>,
    valid_move_positions: Vec<bool>,
}

impl Battle {
    /// The board index.
    pub closed spec fn spec_board(self) -> Board {
        self.board
    }

    /// The unit list.
    pub closed spec fn spec_wizards(self) -> Seq<Wizard> {
        self.wizards@
    }

    /// The projectile list.
    pub closed spec fn spec_projectiles(self) -> Seq<Projectile> {
        self.projectiles@
    }

    /// The index of the currently-acting unit.
    pub closed spec fn spec_current(self) -> int {
        self.current_player as int
    }

    /// The cached movement grid: one flag per cell, true on the tiles
    /// the acting unit may move to.
    pub closed spec fn spec_move_grid(self) -> Seq<bool> {
        self.valid_move_positions@
    }

    /// The grid contents, cell by cell.
    pub open spec fn cells(self) -> Seq<Option<Entity>> {
        self.spec_board().cells()
    }

    /// The occupant reference at a position.
    pub open spec fn entity_at_spec(self, pos: Position) -> Option<Entity> {
        self.cells()[cell_index(pos)]
    }

    /// The acting unit's tile: where movement starts from.
    pub open spec fn start_tile(self) -> Position {
        self.spec_wizards()[self.spec_current()].position
    }

    /// The acting unit's movement depth this turn.
    pub open spec fn acting_depth(self) -> int {
        self.spec_wizards()[self.spec_current()].movement_depth_spec()
    }

    /// Whether a tile blocks movement: it holds a different unit or an
    /// impassable projectile.  The acting unit's own tile and tiles
    /// holding passable projectiles do not block.
    pub open spec fn blocked_spec(self, q: Position) -> bool {
        match self.entity_at_spec(q) {
            Some(Entity::Wizard(w)) => w != self.spec_current(),
            Some(Entity::Projectile(p)) => !self.spec_projectiles()[p as int].passable,
            None => false,
        }
    }

    /// The depth-bounded reachability relation of the flood fill: a
    /// tile is reachable within `k` steps if it is the start tile, or
    /// if it does not block movement and some cardinal neighbour is
    /// reachable within `k - 1` steps.
    pub open spec fn reachable_within(self, q: Position, k: nat) -> bool
        decreases k,
    {
        if k == 0 {
            q == self.start_tile()
        } else {
            self.reachable_within(q, (k - 1) as nat) || (!self.blocked_spec(q) && exists|
                dir: Direction,
            | self.reachable_within(q.step_spec(dir), (k - 1) as nat))
        }
    }

    /// Consistency of board, units and projectiles: two units with
    /// canonical positions, each sitting on the board at its own
    /// position, and every occupied cell pointing back at an entity
    /// whose stored position is that cell.
    pub open spec fn core_wf(self) -> bool {
        &&& self.spec_board().wf()
        &&& self.spec_wizards().len() == 2
        &&& 0 <= self.spec_current() < 2
        &&& forall|i: int| 0 <= i < 2 ==> (#[trigger] self.spec_wizards()[i]).wf()
        &&& forall|i: int|
            0 <= i < self.spec_projectiles().len() ==> (#[trigger] self.spec_projectiles()[i]).wf()
        &&& forall|i: int|
            0 <= i < 2 ==> self.cells()[cell_index(#[trigger] self.spec_wizards()[i].position)]
                == Some(Entity::Wizard(i as usize))
        &&& forall|c: int|
            0 <= c < CELLS ==> match #[trigger] self.cells()[c] {
                Some(Entity::Wizard(w)) => w < 2 && cell_index(self.spec_wizards()[w as int].position)
                    == c,
                Some(Entity::Projectile(p)) => (p as int) < self.spec_projectiles().len()
                    && cell_index(self.spec_projectiles()[p as int].position) == c,
                None => true,
            }
    }

    /// The cached movement grid records exactly the reachability
    /// relation at the acting unit's current depth.
    pub open spec fn grid_matches(self) -> bool {
        &&& self.spec_move_grid().len() == CELLS
        &&& forall|c: int|
            0 <= c < CELLS ==> #[trigger] self.spec_move_grid()[c] == self.reachable_within(
                cell_position(c),
                self.acting_depth() as nat,
            )
    }

    /// Full battle invariant.
    pub open spec fn wf(self) -> bool {
        self.core_wf() && self.grid_matches()
    }

    /// What a finished move intent guarantees, relating the battle
    /// before the call, the battle after it, and the result.
    pub open spec fn move_outcome_spec(
        old_b: Battle,
        new_b: Battle,
        wiz_i: int,
        pos: Position,
        r: Result<(), IllegalMove>,
    ) -> bool {
        &&& (r == Err::<(), _>(IllegalMove::OccupiedByUnit) <==> match old_b.entity_at_spec(pos) {
            Some(Entity::Wizard(w)) => w != wiz_i,
            _ => false,
        })
        &&& (r == Err::<(), _>(IllegalMove::BlockedByImpassableProjectile) <==> match old_b.entity_at_spec(
            pos,
        ) {
            Some(Entity::Projectile(p)) => !old_b.spec_projectiles()[p as int].passable,
            _ => false,
        })
        &&& (r is Err ==> new_b == old_b)
        &&& (r is Ok ==> {
            let old_w = old_b.spec_wizards()[wiz_i];
            let new_w = new_b.spec_wizards()[wiz_i];
            let damage = match old_b.entity_at_spec(pos) {
                Some(Entity::Projectile(p)) => old_w.damage_taken_spec(
                    old_b.spec_projectiles()[p as int].damage as int,
                ),
                _ => 0int,
            };
            &&& new_w.position == pos
            &&& new_w.team == old_w.team
            &&& new_w.mana == old_w.mana
            &&& new_w.effects == old_w.effects
            &&& new_w.spells == old_w.spells
            &&& new_w.health == if damage >= old_w.health {
                0int
            } else {
                old_w.health - damage
            }
            &&& forall|j: int| 0 <= j < 2 && j != wiz_i ==> #[trigger] new_b.spec_wizards()[j] == old_b.spec_wizards()[j]
            &&& new_b.spec_projectiles() == old_b.spec_projectiles()
            &&& new_b.spec_current() == old_b.spec_current()
            &&& if pos == old_w.position {
                new_b.cells() == old_b.cells()
            } else {
                new_b.cells() == old_b.cells().update(cell_index(pos), None::<Entity>).update(
                    cell_index(old_w.position),
                    None::<Entity>,
                ).update(cell_index(pos), Some(Entity::Wizard(wiz_i as usize)))
            }
        })
    }

    /// What the initial battle built from a finalized selection looks
    /// like: two units at fixed distinct starting tiles with full
    /// health and mana, no effects, spell lists derived from the point
    /// allocations, no projectiles, and player 0 acting.
    pub open spec fn initial_battle_spec(b: Battle, players: Seq<SpellChoice>) -> bool {
        &&& b.spec_current() == 0
        &&& b.spec_wizards().len() == 2
        &&& b.spec_projectiles().len() == 0
        &&& b.spec_wizards()[0].team == Team::Red
        &&& b.spec_wizards()[1].team == Team::Blue
        &&& forall|i: int|
            0 <= i < 2 ==> (#[trigger] b.spec_wizards()[i]).position == (Position {
                x: i as usize,
                y: 0,
            })
        &&& forall|i: int| 0 <= i < 2 ==> (#[trigger] b.spec_wizards()[i]).health == START_HEALTH
        &&& forall|i: int| 0 <= i < 2 ==> (#[trigger] b.spec_wizards()[i]).mana == START_MANA
        &&& forall|i: int, j: int|
            0 <= i < 2 && 0 <= j < 4 ==> #[trigger] b.spec_wizards()[i].effects[j] == 0
        &&& forall|i: int|
            0 <= i < 2 ==> (#[trigger] b.spec_wizards()[i]).spells@ == players[i].unlocked_seq()
    }

    /// Builds the initial battle from a finalized selection: two units
    /// at fixed distinct starting tiles with full health and mana, no
    /// effects, spell lists derived from the point allocations, no
    /// projectiles, and player 0 acting.
    pub fn new(spell_select: &SpellSelect) -> (r: Battle)
        requires
            spell_select.players@.len() == 2,
        ensures
            r.wf(),
            Battle::initial_battle_spec(r, spell_select.players@),
    {
        let spells0 = spell_select.players[0].unlocked_spells();
        let spells1 = spell_select.players[1].unlocked_spells();
        let w0 = Wizard {
            team: Team::Red,
            health: START_HEALTH,
            mana: START_MANA,
            effects: [0, 0, 0, 0],
            position: Position { x: 0, y: 0 },
            spells: spells0,
        };
        let w1 = Wizard {
            team: Team::Blue,
            health: START_HEALTH,
            mana: START_MANA,
            effects: [0, 0, 0, 0],
            position: Position { x: 1, y: 0 },
            spells: spells1,
        };
        let wizards: Vec<Wizard> = vec![w0, w1];
        let projectiles: Vec<Projectile> = Vec::new();
        let board = Board::new(&wizards, &projectiles);
        let mut battle = Battle {
            board,
            wizards,
            current_player: 0,
            projectiles,
            valid_move_positions: Vec::new(),
        };
        proof {
            assert forall|c: int| 0 <= c < CELLS implies match #[trigger] battle.cells()[c] {
                Some(Entity::Wizard(w)) => w < 2 && cell_index(battle.spec_wizards()[w as int].position)
                    == c,
                Some(Entity::Projectile(p)) => (p as int) < battle.spec_projectiles().len()
                    && cell_index(battle.spec_projectiles()[p as int].position) == c,
                None => true,
            } by {
                lemma_cell_index_of_position(battle.spec_wizards()[0].position);
                lemma_cell_index_of_position(battle.spec_wizards()[1].position);
            }
        }
        battle.update_valid_move_positions();
        battle
    }

    /// Moves a unit to a destination tile.  A tile held by another
    /// unit rejects the move with `OccupiedByUnit`; a tile held by an
    /// impassable projectile rejects it with
    /// `BlockedByImpassableProjectile`; either rejection leaves the
    /// battle unchanged.  Entering a tile held by a passable
    /// projectile deals the unit that projectile's damage (halved by
    /// an active damage-reduction effect, health floored at 0) and
    /// clears the projectile off the board.  On success the board and
    /// the unit's stored position are updated together and the
    /// reachable-tile set is recomputed.
    pub fn move_wizard_to(&mut self, wiz_i: usize, pos: Position) -> (r: Result<(), IllegalMove>)
        requires
            old(self).wf(),
            wiz_i < 2,
            pos.wf(),
        ensures
            final(self).wf(),
            Battle::move_outcome_spec(*old(self), *final(self), wiz_i as int, pos, r),
    {
        let wiz_pos = self.wizards[wiz_i].position;
        match self.board.get_entity_at(pos) {
            Some(Entity::Wizard(w)) => {
                if w != wiz_i {
                    return Err(IllegalMove::OccupiedByUnit);
                }
                // Moving onto the unit's own tile relocates nothing, but
                // the reachable set is still recomputed.
                proof {
                    lemma_cell_index_of_position(pos);
                    lemma_cell_index_of_position(wiz_pos);
                }
                self.update_valid_move_positions();
                return Ok(());
            },
            Some(Entity::Projectile(p)) => {
                if !self.projectiles[p].passable {
                    return Err(IllegalMove::BlockedByImpassableProjectile);
                }
                let damage = self.projectiles[p].damage;
                self.wizards[wiz_i].take_damage(damage);
            },
            None => {},
        }
        proof {
            lemma_cell_index_of_position(pos);
            lemma_cell_index_of_position(wiz_pos);
            assert(wiz_pos != pos);
        }
        self.board.remove_entity_at(pos);
        self.board.swap_entities(wiz_pos, pos);
        self.wizards[wiz_i].set_position(pos);
        proof {
            assert forall|c: int| 0 <= c < CELLS implies match #[trigger] self.cells()[c] {
                Some(Entity::Wizard(w)) => w < 2 && cell_index(self.spec_wizards()[w as int].position)
                    == c,
                Some(Entity::Projectile(q)) => (q as int) < self.spec_projectiles().len()
                    && cell_index(self.spec_projectiles()[q as int].position) == c,
                None => true,
            } by {
                lemma_cell_index_of_position(self.spec_wizards()[0].position);
                lemma_cell_index_of_position(self.spec_wizards()[1].position);
                lemma_cell_index_of_position(old(self).spec_wizards()[0].position);
                lemma_cell_index_of_position(old(self).spec_wizards()[1].position);
            }
        }
        self.update_valid_move_positions();
        Ok(())
    }

    /// Moves the acting unit, with `move_wizard_to`'s behaviour.
    pub fn move_current_wizard_to(&mut self, pos: Position) -> (r: Result<(), IllegalMove>)
        requires
            old(self).wf(),
            pos.wf(),
        ensures
            final(self).wf(),
            Battle::move_outcome_spec(*old(self), *final(self), old(self).spec_current(), pos, r),
    {
        let current = self.current_player;
        self.move_wizard_to(current, pos)
    }

    /// The occupant reference at a position, if any.
    pub fn get_entity_at(&self, position: Position) -> (r: Option<Entity>)
        requires
            self.wf(),
            position.wf(),
        ensures
            r == self.entity_at_spec(position),
    {
        self.board.get_entity_at(position)
    }

    /// The unit with the given index.
    pub fn get_wizard(&self, entity: usize) -> (r: &Wizard)
        requires
            self.wf(),
            entity < 2,
        ensures
            *r == self.spec_wizards()[entity as int],
    {
        &self.wizards[entity]
    }

    /// The currently-acting unit.
    pub fn get_current_wizard(&self) -> (r: &Wizard)
        requires
            self.wf(),
        ensures
            *r == self.spec_wizards()[self.spec_current()],
    {
        &self.wizards[self.current_player]
    }

    /// The index of the currently-acting unit.
    pub fn current_wizard_index(&self) -> (r: usize)
        requires
            self.wf(),
        ensures
            r == self.spec_current(),
    {
        self.current_player
    }

    /// The projectile with the given index.
    pub fn get_projectile(&self, entity: usize) -> (r: &Projectile)
        requires
            self.wf(),
            entity < self.spec_projectiles().len(),
        ensures
            *r == self.spec_projectiles()[entity as int],
    {
        &self.projectiles[entity]
    }

    /// Whether the acting unit may move to a tile this turn: the tile
    /// is canonical and in the reachable set at the unit's current
    /// movement depth.
    pub fn wizard_can_move(&self, tile: Position) -> (r: bool)
        requires
            self.wf(),
        ensures
            r == (tile.wf() && self.reachable_within(tile, self.acting_depth() as nat)),
    {
        if tile.x < WIDTH && tile.y < HEIGHT {
            proof {
                lemma_cell_index_of_position(tile);
            }
            let c = Self::pos_index(tile);
            self.valid_move_positions[c]
        } else {
            false
        }
    }

    /// Adds a projectile to the battle, placing it on the board at its
    /// stored position.  Returns its index in the projectile list, or
    /// `None` (leaving the battle unchanged) if the tile is occupied.
    pub fn add_projectile(&mut self, projectile: Projectile) -> (r: Option<usize>)
        requires
            old(self).wf(),
            projectile.wf(),
        ensures
            final(self).wf(),
            r is None <==> !(old(self).entity_at_spec(projectile.position) is None),
            r is None ==> *final(self) == *old(self),
            r is Some ==> {
                &&& r == Some(old(self).spec_projectiles().len() as usize)
                &&& final(self).spec_projectiles() == old(self).spec_projectiles().push(projectile)
                &&& final(self).spec_wizards() == old(self).spec_wizards()
                &&& final(self).spec_current() == old(self).spec_current()
                &&& final(self).cells() == old(self).cells().update(
                    cell_index(projectile.position),
                    Some(Entity::Projectile(old(self).spec_projectiles().len() as usize)),
                )
            },
    {
        match self.board.get_entity_at(projectile.position) {
            Some(_) => None,
            None => {
                proof {
                    lemma_cell_index_of_position(projectile.position);
                }
                let index = self.projectiles.len();
                let position = projectile.position;
                self.projectiles.push(projectile);
                self.board.place_entity_at(position, Entity::Projectile(index));
                proof {
                    assert forall|c: int| 0 <= c < CELLS implies match #[trigger] self.cells()[c] {
                        Some(Entity::Wizard(w)) => w < 2 && cell_index(
                            self.spec_wizards()[w as int].position,
                        ) == c,
                        Some(Entity::Projectile(q)) => (q as int) < self.spec_projectiles().len()
                            && cell_index(self.spec_projectiles()[q as int].position) == c,
                        None => true,
                    } by {}
                }
                self.update_valid_move_positions();
                Some(index)
            },
        }
    }

    /// Sets the remaining-turns counter of one effect on a unit and
    /// recomputes the reachable set, which mobility effects change.
    pub fn apply_effect(&mut self, wiz_i: usize, effect: Effects, turns: usize)
        requires
            old(self).wf(),
            wiz_i < 2,
        ensures
            final(self).wf(),
            final(self).spec_wizards()[wiz_i as int].effects[effect.index_spec()] == turns,
            forall|j: int|
                0 <= j < 4 && j != effect.index_spec()
                    ==> #[trigger] final(self).spec_wizards()[wiz_i as int].effects[j] == old(
                    self,
                ).spec_wizards()[wiz_i as int].effects[j],
            final(self).spec_wizards()[wiz_i as int].position == old(self).spec_wizards()[wiz_i as int].position,
            final(self).spec_wizards()[wiz_i as int].health == old(self).spec_wizards()[wiz_i as int].health,
            final(self).spec_wizards()[wiz_i as int].mana == old(self).spec_wizards()[wiz_i as int].mana,
            final(self).spec_wizards()[wiz_i as int].team == old(self).spec_wizards()[wiz_i as int].team,
            final(self).spec_wizards()[wiz_i as int].spells == old(self).spec_wizards()[wiz_i as int].spells,
            forall|j: int|
                0 <= j < 2 && j != wiz_i ==> #[trigger] final(self).spec_wizards()[j] == old(
                    self,
                ).spec_wizards()[j],
            final(self).spec_projectiles() == old(self).spec_projectiles(),
            final(self).spec_current() == old(self).spec_current(),
            final(self).cells() == old(self).cells(),
    {
        self.wizards[wiz_i].apply_effect(effect, turns);
        self.update_valid_move_positions();
    }

    /// Recomputes the cached reachable-tile set for the acting unit
    /// from the current board, unit and effect state.
    fn update_valid_move_positions(&mut self)
        requires
            old(self).core_wf(),
        ensures
            final(self).wf(),
            final(self).spec_board() == old(self).spec_board(),
            final(self).spec_wizards() == old(self).spec_wizards(),
            final(self).spec_projectiles() == old(self).spec_projectiles(),
            final(self).spec_current() == old(self).spec_current(),
    {
        let grid = self.compute_reachable();
        self.valid_move_positions = grid;
        proof {
            assert forall|c: int| 0 <= c < CELLS implies #[trigger] self.spec_move_grid()[c]
                == self.reachable_within(cell_position(c), self.acting_depth() as nat) by {
                lemma_reach_congruence(
                    *old(self),
                    *self,
                    cell_position(c),
                    old(self).acting_depth() as nat,
                );
            }
        }
    }

    /// Runs the level-synchronous flood fill: starting from the acting
    /// unit's tile, each round extends the reached set by one step in
    /// the four cardinal directions into tiles that do not block
    /// movement, for as many rounds as the unit's movement depth.
    fn compute_reachable(&self) -> (grid: Vec<bool>)
        requires
            self.core_wf(),
        ensures
            grid@.len() == CELLS,
            forall|c: int|
                0 <= c < CELLS ==> grid@[c] == self.reachable_within(
                    cell_position(c),
                    self.acting_depth() as nat,
                ),
    {
        let depth = self.wizards[self.current_player].movement_depth();
        let start = self.wizards[self.current_player].position;
        let mut grid: Vec<bool> = Vec::new();
        let mut c: usize = 0;
        while c < CELLS
            invariant
                c <= CELLS,
                grid@.len() == c,
                start == self.start_tile(),
                forall|i: int|
                    0 <= i < c ==> grid@[i] == self.reachable_within(cell_position(i), 0),
            decreases CELLS - c,
        {
            let q = Self::index_to_pos(c);
            grid.push(q == start);
            c = c + 1;
        }
        let mut k: usize = 0;
        while k < depth
            invariant
                self.core_wf(),
                k <= depth,
                depth == self.acting_depth(),
                grid@.len() == CELLS,
                forall|i: int|
                    0 <= i < CELLS ==> grid@[i] == self.reachable_within(cell_position(i), k as nat),
            decreases depth - k,
        {
            let mut next: Vec<bool> = Vec::new();
            let mut c: usize = 0;
            while c < CELLS
                invariant
                    self.core_wf(),
                    k < depth,
                    depth == self.acting_depth(),
                    c <= CELLS,
                    next@.len() == c,
                    grid@.len() == CELLS,
                    forall|i: int|
                        0 <= i < CELLS ==> grid@[i] == self.reachable_within(
                            cell_position(i),
                            k as nat,
                        ),
                    forall|i: int|
                        0 <= i < c ==> next@[i] == self.reachable_within(
                            cell_position(i),
                            (k + 1) as nat,
                        ),
                decreases CELLS - c,
            {
                let q = Self::index_to_pos(c);
                let mut v = grid[c];
                if !v && !self.is_blocked(q) {
                    let up = Self::pos_index(q.move_in_direction(Direction::Up));
                    let down = Self::pos_index(q.move_in_direction(Direction::Down));
                    let left = Self::pos_index(q.move_in_direction(Direction::Left));
                    let right = Self::pos_index(q.move_in_direction(Direction::Right));
                    v = grid[up] || grid[down] || grid[left] || grid[right];
                    proof {
                        lemma_cell_index_of_position(q.step_spec(Direction::Up));
                        lemma_cell_index_of_position(q.step_spec(Direction::Down));
                        lemma_cell_index_of_position(q.step_spec(Direction::Left));
                        lemma_cell_index_of_position(q.step_spec(Direction::Right));
                        if v {
                            assert(exists|dir: Direction|
                                self.reachable_within(q.step_spec(dir), k as nat));
                        }
                        if exists|dir: Direction|
                            self.reachable_within(q.step_spec(dir), k as nat) {
                            let dir = choose|dir: Direction|
                                self.reachable_within(q.step_spec(dir), k as nat);
                            match dir {
                                Direction::Up => assert(self.reachable_within(
                                    q.step_spec(Direction::Up),
                                    k as nat,
                                )),
                                Direction::Down => assert(self.reachable_within(
                                    q.step_spec(Direction::Down),
                                    k as nat,
                                )),
                                Direction::Left => assert(self.reachable_within(
                                    q.step_spec(Direction::Left),
                                    k as nat,
                                )),
                                Direction::Right => assert(self.reachable_within(
                                    q.step_spec(Direction::Right),
                                    k as nat,
                                )),
                            }
                            assert(v);
                        }
                    }
                }
                next.push(v);
                c = c + 1;
            }
            grid = next;
            k = k + 1;
        }
        grid
    }

    /// Whether a tile blocks movement for the acting unit.
    fn is_blocked(&self, q: Position) -> (r: bool)
        requires
            self.core_wf(),
            q.wf(),
        ensures
            r == self.blocked_spec(q),
    {
        match self.board.get_entity_at(q) {
            Some(Entity::Wizard(w)) => w != self.current_player,
            Some(Entity::Projectile(p)) => !self.projectiles[p].passable,
            None => false,
        }
    }

    /// The position stored at a flattened cell index.
    fn index_to_pos(c: usize) -> (r: Position)
        requires
            c < CELLS,
        ensures
            r == cell_position(c as int),
            r.wf(),
    {
        proof {
            lemma_position_of_cell_index(c as int);
        }
        Position { x: c % WIDTH, y: c / WIDTH }
    }

    /// The flattened cell index of a canonical position.
    fn pos_index(pos: Position) -> (r: usize)
        requires
            pos.wf(),
        ensures
            r == cell_index(pos),
            r < CELLS,
    {
        proof {
            lemma_cell_index_of_position(pos);
        }
        pos.x + pos.y * WIDTH
    }
}

/// Reachability depends only on the start tile and on which tiles
/// block movement: two battles that agree on those agree on every
/// reachability question.
pub proof fn lemma_reach_blocked_congruence(b1: Battle, b2: Battle, q: Position, k: nat)
    requires
        b1.start_tile() == b2.start_tile(),
        forall|p: Position| b1.blocked_spec(p) == b2.blocked_spec(p),
    ensures
        b1.reachable_within(q, k) == b2.reachable_within(q, k),
    decreases k,
{
    if k > 0 {
        lemma_reach_blocked_congruence(b1, b2, q, (k - 1) as nat);
        assert forall|dir: Direction|
            b1.reachable_within(#[trigger] q.step_spec(dir), (k - 1) as nat) == b2.reachable_within(
                q.step_spec(dir),
                (k - 1) as nat,
            ) by {
            lemma_reach_blocked_congruence(b1, b2, q.step_spec(dir), (k - 1) as nat);
        }
    }
}

/// Reachability is unchanged by mutations that touch neither the
/// board, the units, the projectiles nor the acting index.
proof fn lemma_reach_congruence(b1: Battle, b2: Battle, q: Position, k: nat)
    requires
        b1.spec_board() == b2.spec_board(),
        b1.spec_wizards() == b2.spec_wizards(),
        b1.spec_projectiles() == b2.spec_projectiles(),
        b1.spec_current() == b2.spec_current(),
    ensures
        b1.reachable_within(q, k) == b2.reachable_within(q, k),
{
    assert forall|p: Position| b1.blocked_spec(p) == b2.blocked_spec(p) by {}
    lemma_reach_blocked_congruence(b1, b2, q, k);
}

/// The reachable set always contains the acting unit's own tile.
pub proof fn lemma_reachable_contains_start(b: Battle, k: nat)
    ensures
        b.reachable_within(b.start_tile(), k),
    decreases k,
{
    if k > 0 {
        lemma_reachable_contains_start(b, (k - 1) as nat);
    }
}

/// A reachable tile other than the start tile never blocks movement:
/// in particular it holds no other unit and no impassable projectile.
pub proof fn lemma_reachable_unblocked(b: Battle, q: Position, k: nat)
    requires
        b.reachable_within(q, k),
        q != b.start_tile(),
    ensures
        !b.blocked_spec(q),
    decreases k,
{
    if k > 0 {
        if b.reachable_within(q, (k - 1) as nat) {
            lemma_reachable_unblocked(b, q, (k - 1) as nat);
        }
    }
}

/// The reachable set never contains a tile occupied by a different
/// unit: a reachable tile holding a unit holds the acting unit.
pub proof fn lemma_reachable_excludes_other_units(b: Battle, q: Position, k: nat, w: usize)
    requires
        b.core_wf(),
        b.reachable_within(q, k),
        b.entity_at_spec(q) == Some(Entity::Wizard(w)),
    ensures
        w == b.spec_current(),
{
    if q == b.start_tile() {
        assert(b.cells()[cell_index(b.spec_wizards()[b.spec_current()].position)] == Some(
            Entity::Wizard(b.spec_current() as usize),
        ));
    } else {
        lemma_reachable_unblocked(b, q, k);
    }
}

/// Reachability is monotone in the depth budget: every tile reachable
/// within `k1` steps is reachable within any larger budget `k2`.
pub proof fn lemma_reachable_monotone(b: Battle, q: Position, k1: nat, k2: nat)
    requires
        k1 <= k2,
        b.reachable_within(q, k1),
    ensures
        b.reachable_within(q, k2),
    decreases k2,
{
    if k1 < k2 {
        lemma_reachable_monotone(b, q, k1, (k2 - 1) as nat);
    }
}

/// Mobility effects only rescale the movement depth, so a battle whose
/// acting unit has at least the movement depth of another battle over
/// the same arena reaches every tile the other does: boosting mobility
/// can only grow the reachable set, and reducing it can only shrink
/// it.
pub proof fn lemma_deeper_reach_superset(b1: Battle, b2: Battle, q: Position)
    requires
        b1.start_tile() == b2.start_tile(),
        forall|p: Position| b1.blocked_spec(p) == b2.blocked_spec(p),
        0 <= b1.acting_depth() <= b2.acting_depth(),
        b1.reachable_within(q, b1.acting_depth() as nat),
    ensures
        b2.reachable_within(q, b2.acting_depth() as nat),
{
    lemma_reach_blocked_congruence(b1, b2, q, b1.acting_depth() as nat);
    lemma_reachable_monotone(b2, q, b1.acting_depth() as nat, b2.acting_depth() as nat);
}

} // verus!
