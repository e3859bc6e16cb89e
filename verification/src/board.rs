//! The dense board index: a fixed-size grid mapping each cell to at
//! most one occupant reference, keyed by flattened coordinate.

use vstd::prelude::*;
use vstd::pervasive::VecAdditionalExecFns;

use crate::position::Position;
use crate::projectile::Projectile;
use crate::wizard::Wizard;

verus! {

/// Number of columns of the board.
pub const WIDTH: usize = 30;

/// Number of rows of the board.
pub const HEIGHT: usize = 20;

/// Number of cells of the board.
pub const CELLS: usize = 600;

/// A lightweight occupant reference: the index of a wizard or of a
/// projectile in the battle's respective list.
#[derive(Clone, Copy, PartialEq, Eq, Debug, Structural)]
pub enum Entity {
    Wizard(usize),
    Projectile(usize),
}

impl Entity {
    /// Whether this reference points into the wizard list.
    pub fn is_wizard(&self) -> (r: bool)
        ensures
            r == self is Wizard,
    {
        match self {
            Entity::Wizard(_) => true,
            Entity::Projectile(_) => false,
        }
    }

    /// Whether this reference points into the projectile list.
    pub fn is_projectile(&self) -> (r: bool)
        ensures
            r == self is Projectile,
    {
        match self {
            Entity::Wizard(_) => false,
            Entity::Projectile(_) => true,
        }
    }
}

/// The flattened cell index of a position: `x + y * WIDTH`.
pub open spec fn cell_index(pos: Position) -> int {
    pos.x + pos.y * WIDTH
}

/// The position stored at a flattened cell index.
pub open spec fn cell_position(i: int) -> Position {
    Position { x: (i % (WIDTH as int)) as usize, y: (i / (WIDTH as int)) as usize }
}

/// Flattening a canonical position gives an in-range cell index, and
/// unflattening gives the position back.
pub proof fn lemma_cell_index_of_position(pos: Position)
    requires
        pos.wf(),
    ensures
        0 <= cell_index(pos) < CELLS,
        cell_position(cell_index(pos)) == pos,
{
}

/// Unflattening an in-range cell index gives a canonical position, and
/// flattening it gives the index back.
pub proof fn lemma_position_of_cell_index(i: int)
    requires
        0 <= i < CELLS,
    ensures
        cell_position(i).wf(),
        cell_index(cell_position(i)) == i,
{
}

/// The board: one optional occupant reference per cell.  The board
/// holds no entity payload; the battle keeps each entity's stored
/// position synchronized with board occupancy.
pub struct Board {
    board: Vec<Option<Entity>>,
}

impl Board {
    /// The grid contents, cell by cell in flattened order.
    pub closed spec fn cells(self) -> Seq<Option<Entity>> {
        self.board@
    }

    /// The board has exactly one slot per cell.
    pub open spec fn wf(self) -> bool {
        self.cells().len() == CELLS
    }

    /// The occupant reference at a canonical position.
    pub open spec fn entity_at_spec(self, pos: Position) -> Option<Entity> {
        self.cells()[cell_index(pos)]
    }

    /// A board with every cell empty.
    pub fn empty() -> (r: Self)
        ensures
            r.wf(),
            forall|i: int| 0 <= i < CELLS ==> r.cells()[i] is None,
    {
        let mut board: Vec<Option<Entity>> = Vec::new();
        while board.len() < CELLS
            invariant
                board@.len() <= CELLS,
                forall|i: int| 0 <= i < board@.len() ==> board@[i] is None,
            decreases CELLS - board@.len(),
        {
            board.push(None);
        }
        Board { board }
    }

    /// A board with each wizard and each projectile placed at its own
    /// stored position, and every other cell empty.  Projectile
    /// placements come second, as for the wizard placements.
    pub fn new(wizards: &Vec<Wizard>, projectiles: &Vec<Projectile>) -> (r: Self)
        requires
            forall|i: int| 0 <= i < wizards@.len() ==> (#[trigger] wizards@[i]).wf(),
            forall|i: int| 0 <= i < projectiles@.len() ==> (#[trigger] projectiles@[i]).wf(),
            forall|i: int, j: int|
                0 <= i < j < wizards@.len() ==> wizards@[i].position != wizards@[j].position,
            forall|i: int, j: int|
                0 <= i < j < projectiles@.len() ==> projectiles@[i].position != projectiles@[j].position,
            forall|i: int, j: int|
                0 <= i < wizards@.len() && 0 <= j < projectiles@.len() ==> wizards@[i].position
                    != projectiles@[j].position,
        ensures
            r.wf(),
            forall|i: int|
                0 <= i < wizards@.len() ==> r.entity_at_spec(#[trigger] wizards@[i].position)
                    == Some(Entity::Wizard(i as usize)),
            forall|i: int|
                0 <= i < projectiles@.len() ==> r.entity_at_spec(
                    #[trigger] projectiles@[i].position,
                ) == Some(Entity::Projectile(i as usize)),
            forall|c: int|
                0 <= c < CELLS && !(exists|i: int|
                    0 <= i < wizards@.len() && cell_index(#[trigger] wizards@[i].position) == c)
                    && !(exists|i: int|
                    0 <= i < projectiles@.len() && cell_index(#[trigger] projectiles@[i].position)
                        == c) ==> r.cells()[c] is None,
    {
        let mut temp = Self::empty();
        let mut i: usize = 0;
        while i < wizards.len()
            invariant
                temp.wf(),
                i <= wizards@.len(),
                forall|k: int| 0 <= k < wizards@.len() ==> (#[trigger] wizards@[k]).wf(),
                forall|k: int, j: int|
                    0 <= k < j < wizards@.len() ==> wizards@[k].position != wizards@[j].position,
                forall|k: int|
                    0 <= k < i ==> temp.entity_at_spec(#[trigger] wizards@[k].position) == Some(
                        Entity::Wizard(k as usize),
                    ),
                forall|c: int|
                    0 <= c < CELLS && !(exists|k: int|
                        0 <= k < i && cell_index(#[trigger] wizards@[k].position) == c)
                        ==> temp.cells()[c] is None,
            decreases wizards@.len() - i,
        {
            proof {
                lemma_cell_index_of_position(wizards@[i as int].position);
                assert forall|p: Position, q: Position|
                    p.wf() && q.wf() && p != q implies cell_index(p) != cell_index(q) by {
                    lemma_cell_index_of_position(p);
                    lemma_cell_index_of_position(q);
                }
            }
            let idx = Self::pos_to_index(wizards[i].position);
            temp.board.set(idx, Some(Entity::Wizard(i)));
            i = i + 1;
        }
        let mut j: usize = 0;
        while j < projectiles.len()
            invariant
                temp.wf(),
                j <= projectiles@.len(),
                forall|k: int| 0 <= k < wizards@.len() ==> (#[trigger] wizards@[k]).wf(),
                forall|k: int| 0 <= k < projectiles@.len() ==> (#[trigger] projectiles@[k]).wf(),
                forall|k: int, l: int|
                    0 <= k < l < projectiles@.len() ==> projectiles@[k].position
                        != projectiles@[l].position,
                forall|k: int, l: int|
                    0 <= k < wizards@.len() && 0 <= l < projectiles@.len() ==> wizards@[k].position
                        != projectiles@[l].position,
                forall|k: int|
                    0 <= k < wizards@.len() ==> temp.entity_at_spec(
                        #[trigger] wizards@[k].position,
                    ) == Some(Entity::Wizard(k as usize)),
                forall|k: int|
                    0 <= k < j ==> temp.entity_at_spec(#[trigger] projectiles@[k].position)
                        == Some(Entity::Projectile(k as usize)),
                forall|c: int|
                    0 <= c < CELLS && !(exists|k: int|
                        0 <= k < wizards@.len() && cell_index(#[trigger] wizards@[k].position)
                            == c) && !(exists|k: int|
                        0 <= k < j && cell_index(#[trigger] projectiles@[k].position) == c)
                        ==> temp.cells()[c] is None,
            decreases projectiles@.len() - j,
        {
            proof {
                lemma_cell_index_of_position(projectiles@[j as int].position);
                assert forall|p: Position, q: Position|
                    p.wf() && q.wf() && p != q implies cell_index(p) != cell_index(q) by {
                    lemma_cell_index_of_position(p);
                    lemma_cell_index_of_position(q);
                }
            }
            let idx = Self::pos_to_index(projectiles[j].position);
            temp.board.set(idx, Some(Entity::Projectile(j)));
            j = j + 1;
        }
        temp
    }

    /// The occupant reference at a position, if any.
    pub fn get_entity_at(&self, position: Position) -> (r: Option<Entity>)
        requires
            self.wf(),
            position.wf(),
        ensures
            r == self.entity_at_spec(position),
    {
        proof {
            lemma_cell_index_of_position(position);
        }
        self.board[Self::pos_to_index(position)]
    }

    /// Places an occupant reference into the cell at a position,
    /// overwriting whatever the cell held.
    pub fn place_entity_at(&mut self, position: Position, entity: Entity)
        requires
            old(self).wf(),
            position.wf(),
        ensures
            final(self).wf(),
            final(self).cells() == old(self).cells().update(cell_index(position), Some(entity)),
    {
        proof {
            lemma_cell_index_of_position(position);
        }
        let idx = Self::pos_to_index(position);
        self.board.set(idx, Some(entity));
    }

    /// Empties the cell at a position.
    pub fn remove_entity_at(&mut self, position: Position)
        requires
            old(self).wf(),
            position.wf(),
        ensures
            final(self).wf(),
            final(self).cells() == old(self).cells().update(cell_index(position), None::<Entity>),
    {
        proof {
            lemma_cell_index_of_position(position);
        }
        let idx = Self::pos_to_index(position);
        self.board.set(idx, None);
    }

    /// Exchanges the contents of two cells; used to relocate an
    /// occupant to an empty destination cell.
    pub fn swap_entities(&mut self, a: Position, b: Position)
        requires
            old(self).wf(),
            a.wf(),
            b.wf(),
        ensures
            final(self).wf(),
            final(self).cells() == old(self).cells().update(
                cell_index(a),
                old(self).cells()[cell_index(b)],
            ).update(cell_index(b), old(self).cells()[cell_index(a)]),
    {
        proof {
            lemma_cell_index_of_position(a);
            lemma_cell_index_of_position(b);
        }
        let ia = Self::pos_to_index(a);
        let ib = Self::pos_to_index(b);
        let ea = self.board[ia];
        let eb = self.board[ib];
        self.board.set(ia, eb);
        self.board.set(ib, ea);
    }

    /// The flattened cell index of a canonical position.
    fn pos_to_index(pos: Position) -> (r: usize)
        requires
            pos.wf(),
        ensures
            r == cell_index(pos),
            r < CELLS,
    {
        pos.x + pos.y * WIDTH
    }
}

} // verus!
