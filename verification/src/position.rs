//! Toroidal coordinate type and arithmetic: wrapped distance, signed
//! shortest-path offset, and cardinal stepping.

use vstd::prelude::*;

use crate::board::{HEIGHT, WIDTH};

verus! {

/// A coordinate on the toroidal board, kept in canonical wrapped form:
/// `x < WIDTH` and `y < HEIGHT`.
#[derive(Clone, Copy, PartialEq, Eq, Hash, Debug, Structural)]
pub struct Position {
    pub x: usize,
    pub y: usize,
}

/// One of the four cardinal directions, used for stepping positions and
/// for direction-gated spell targeting.
#[derive(Clone, Copy, PartialEq, Eq, Debug, Structural)]
pub enum Direction {
    Up,
    Down,
    Left,
    Right,
}

/// The smaller of two integers.
pub open spec fn min_int(a: int, b: int) -> int {
    if a <= b {
        a
    } else {
        b
    }
}

/// The larger of two integers.
pub open spec fn max_int(a: int, b: int) -> int {
    if a >= b {
        a
    } else {
        b
    }
}

/// Minimum cyclic distance between `a` and `b` on a ring of size `m`:
/// the smaller of the forward and backward differences.
pub open spec fn dist_axis(a: int, b: int, m: int) -> int {
    min_int((a - b) % m, (b - a) % m)
}

/// Signed shortest cyclic offset from `a` to `b` on a ring of size `m`,
/// normalised into the half-open interval `(-m/2, m/2]`.  A positive
/// result means the shortest path from `a` to `b` goes forward.
pub open spec fn signed_axis(a: int, b: int, m: int) -> int {
    let d = (b - a) % m;
    if d > m / 2 {
        d - m
    } else {
        d
    }
}

impl Position {
    /// Canonical wrapped form: both coordinates are in range.
    pub open spec fn wf(self) -> bool {
        self.x < WIDTH && self.y < HEIGHT
    }

    /// Per-axis wrapped distance between two positions, as a
    /// `Position`-shaped pair of unsigned axis distances.
    pub open spec fn dist_spec(self, other: Position) -> Position {
        Position {
            x: dist_axis(self.x as int, other.x as int, WIDTH as int) as usize,
            y: dist_axis(self.y as int, other.y as int, HEIGHT as int) as usize,
        }
    }

    /// The position one cell further in the given direction, wrapping at
    /// the board edges.  `Up` and `Left` decrement, `Down` and `Right`
    /// increment.
    pub open spec fn step_spec(self, dir: Direction) -> Position {
        match dir {
            Direction::Up => Position {
                x: self.x,
                y: if self.y == 0 {
                    (HEIGHT - 1) as usize
                } else {
                    (self.y - 1) as usize
                },
            },
            Direction::Down => Position { x: self.x, y: ((self.y + 1) % (HEIGHT as int)) as usize },
            Direction::Left => Position {
                x: if self.x == 0 {
                    (WIDTH - 1) as usize
                } else {
                    (self.x - 1) as usize
                },
                y: self.y,
            },
            Direction::Right => Position { x: ((self.x + 1) % (WIDTH as int)) as usize, y: self.y },
        }
    }

    /// Builds a position from in-range coordinates.
    pub fn new(x: usize, y: usize) -> (r: Position)
        requires
            x < WIDTH,
            y < HEIGHT,
        ensures
            r == (Position { x, y }),
            r.wf(),
    {
        Position { x, y }
    }

    /// Per-axis wrapped (cyclic) distance: for each axis the minimum of
    /// the forward and backward cyclic difference.
    pub fn dist(self, other: Position) -> (r: Position)
        requires
            self.wf(),
            other.wf(),
        ensures
            r == self.dist_spec(other),
            r.x <= WIDTH / 2,
            r.y <= HEIGHT / 2,
            r.wf(),
    {
        let fx: usize = if self.x >= other.x {
            self.x - other.x
        } else {
            self.x + WIDTH - other.x
        };
        let bx: usize = if other.x >= self.x {
            other.x - self.x
        } else {
            other.x + WIDTH - self.x
        };
        let fy: usize = if self.y >= other.y {
            self.y - other.y
        } else {
            self.y + HEIGHT - other.y
        };
        let by: usize = if other.y >= self.y {
            other.y - self.y
        } else {
            other.y + HEIGHT - self.y
        };
        let dx: usize = if fx <= bx {
            fx
        } else {
            bx
        };
        let dy: usize = if fy <= by {
            fy
        } else {
            by
        };
        Position { x: dx, y: dy }
    }

    /// Signed shortest cyclic offset from `self` to `other`, per axis,
    /// each normalised into `(-size/2, size/2]`.
    pub fn signed_dist(self, other: Position) -> (r: (isize, isize))
        requires
            self.wf(),
            other.wf(),
        ensures
            r.0 == signed_axis(self.x as int, other.x as int, WIDTH as int),
            r.1 == signed_axis(self.y as int, other.y as int, HEIGHT as int),
            -(WIDTH as int) / 2 < r.0 <= WIDTH as int / 2,
            -(HEIGHT as int) / 2 < r.1 <= HEIGHT as int / 2,
    {
        let dx: isize = other.x as isize - self.x as isize;
        let dxm: isize = if dx < 0 {
            dx + WIDTH as isize
        } else {
            dx
        };
        let sx: isize = if dxm > WIDTH as isize / 2 {
            dxm - WIDTH as isize
        } else {
            dxm
        };
        let dy: isize = other.y as isize - self.y as isize;
        let dym: isize = if dy < 0 {
            dy + HEIGHT as isize
        } else {
            dy
        };
        let sy: isize = if dym > HEIGHT as isize / 2 {
            dym - HEIGHT as isize
        } else {
            dym
        };
        (sx, sy)
    }

    /// The position one cell further in the wrapped grid in the given
    /// direction.
    pub fn move_in_direction(self, dir: Direction) -> (r: Position)
        requires
            self.wf(),
        ensures
            r == self.step_spec(dir),
            r.wf(),
    {
        match dir {
            Direction::Up => Position {
                x: self.x,
                y: if self.y == 0 {
                    HEIGHT - 1
                } else {
                    self.y - 1
                },
            },
            Direction::Down => Position { x: self.x, y: (self.y + 1) % HEIGHT },
            Direction::Left => Position {
                x: if self.x == 0 {
                    WIDTH - 1
                } else {
                    self.x - 1
                },
                y: self.y,
            },
            Direction::Right => Position { x: (self.x + 1) % WIDTH, y: self.y },
        }
    }

    /// Applies a binary function to both coordinates, pairing each with
    /// the same second operand.
    pub fn apply_one(self, func: impl Fn(usize, usize) -> usize, other: usize) -> (r: Position)
        requires
            call_requires(func, (self.x, other)),
            call_requires(func, (self.y, other)),
        ensures
            call_ensures(func, (self.x, other), r.x),
            call_ensures(func, (self.y, other), r.y),
    {
        Position { x: func(self.x, other), y: func(self.y, other) }
    }

    /// Folds the two coordinates into a single value; callers combine
    /// wrapped axis distances into a Chebyshev-style magnitude with
    /// this.
    pub fn reduce<T>(self, f: impl Fn(usize, usize) -> T) -> (r: T)
        requires
            call_requires(f, (self.x, self.y)),
        ensures
            call_ensures(f, (self.x, self.y), r),
    {
        f(self.x, self.y)
    }

    /// Sum of the two axis components; callers combine wrapped axis
    /// distances into a Manhattan-style magnitude with this.
    pub fn mag(self) -> (r: usize)
        requires
            self.x + self.y <= usize::MAX,
        ensures
            r == self.x + self.y,
    {
        self.x + self.y
    }
}

impl Default for Position {
    /// The origin tile.
    fn default() -> (r: Self)
        ensures
            r == (Position { x: 0, y: 0 }),
    {
        Position { x: 0, y: 0 }
    }
}

/// Wrapped distance from a position to itself is zero on both axes.
pub proof fn lemma_dist_axis_self(a: int, m: int)
    requires
        m > 0,
    ensures
        dist_axis(a, a, m) == 0,
{
    assert(0int % m == 0) by (nonlinear_arith)
        requires
            m > 0,
    ;
}

/// Wrapped axis distance is symmetric in its two endpoints, for every
/// ring size.
pub proof fn lemma_dist_axis_symm(a: int, b: int, m: int)
    requires
        m > 0,
    ensures
        dist_axis(a, b, m) == dist_axis(b, a, m),
{
}

/// Wrapped distance from any position to itself is `(0, 0)`.
pub proof fn lemma_dist_self(p: Position)
    requires
        p.wf(),
    ensures
        p.dist_spec(p) == (Position { x: 0, y: 0 }),
{
    lemma_dist_axis_self(p.x as int, WIDTH as int);
    lemma_dist_axis_self(p.y as int, HEIGHT as int);
}

/// Wrapped distance is symmetric: swapping the endpoints gives the same
/// per-axis distances.
pub proof fn lemma_dist_symm(p: Position, q: Position)
    requires
        p.wf(),
        q.wf(),
    ensures
        p.dist_spec(q) == q.dist_spec(p),
{
    lemma_dist_axis_symm(p.x as int, q.x as int, WIDTH as int);
    lemma_dist_axis_symm(p.y as int, q.y as int, HEIGHT as int);
}



/// Euclidean remainder of `a` modulo a positive `m`, computed by
/// shifting `a` into `[0, m)`.
pub(crate) fn rem_euclid_isize(a: isize, m: isize) -> (r: isize)
    requires
        0 < m <= 1000,
        -100000 <= a <= 100000,
    ensures
        r == (a as int) % (m as int),
        0 <= r < m,
{
    let mut t: isize = a;
    while t < 0
        invariant
            0 < m <= 1000,
            -100000 <= t <= 100000,
            t as int % m as int == a as int % m as int,
        decreases (if t < 0 { -(t as int) } else { 0int }),
    {
        proof {
            vstd::arithmetic::div_mod::lemma_mod_add_multiples_vanish(t as int, m as int);
        }
        t = t + m;
    }
    while t >= m
        invariant
            0 < m <= 1000,
            0 <= t <= 100000,
            t as int % m as int == a as int % m as int,
        decreases t,
    {
        proof {
            vstd::arithmetic::div_mod::lemma_mod_sub_multiples_vanish(t as int, m as int);
        }
        t = t - m;
    }
    proof {
        vstd::arithmetic::div_mod::lemma_small_mod(t as nat, m as nat);
    }
    t
}

} // verus!
