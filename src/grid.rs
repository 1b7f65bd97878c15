//! The program as a ragged grid of cells on a torus, and how control moves
//! from one cell to the next.
use vstd::prelude::*;
use crate::flow::Flow;
use crate::syllable::Hangul;

verus! {

/// The rows of a program. Rows may differ in length; row 0 is never empty,
/// since the program starts at its first column.
pub struct Grid {
    rows: Vec<Vec<Hangul>>,
}

impl View for Grid {
    type V = Seq<Seq<Hangul>>;

    closed spec fn view(&self) -> Seq<Seq<Hangul>> {
        cells_of(self.rows@)
    }
}

/// The cells of rows held as vectors.
pub open spec fn cells_of(rows: Seq<Vec<Hangul>>) -> Seq<Seq<Hangul>> {
    rows.map_values(|r: Vec<Hangul>| r@)
}

/// Whether a grid may hold a program: row 0 has at least one cell.
pub open spec fn grid_wf(rows: Seq<Seq<Hangul>>) -> bool {
    rows.len() > 0 && rows[0].len() > 0
}

/// Whether `(x, y)` names a cell of the grid.
pub open spec fn valid_pos(rows: Seq<Seq<Hangul>>, x: int, y: int) -> bool {
    0 <= y < rows.len() && 0 <= x < rows[y].len()
}

/// The row `k` steps away from row `y`, downward or upward, wrapping around
/// the `n` rows.
pub open spec fn scan_row(n: int, y: int, down: bool, k: int) -> int {
    if down {
        (y + k) % n
    } else {
        (y - k) % n
    }
}

/// The first row, in the order of a vertical scan from row `y` that starts
/// `k` steps away, that has a cell in column `x`; the scan ends at row `y`
/// itself after a full turn.
pub open spec fn first_row_with(
    rows: Seq<Seq<Hangul>>,
    x: int,
    y: int,
    down: bool,
    k: nat,
) -> int
    decreases rows.len() - k,
{
    let r = scan_row(rows.len() as int, y, down, k as int);
    if k >= rows.len() || x < rows[r].len() {
        r
    } else {
        first_row_with(rows, x, y, down, k + 1)
    }
}

/// The cell one step from `(x, y)` in direction `f`: horizontal moves wrap
/// within the row, vertical moves skip the rows too short to have column `x`.
pub open spec fn step(rows: Seq<Seq<Hangul>>, x: int, y: int, f: Flow) -> (int, int) {
    match f {
        Flow::Left => ((x - 1) % (rows[y].len() as int), y),
        Flow::Right => ((x + 1) % (rows[y].len() as int), y),
        Flow::Up => (x, first_row_with(rows, x, y, false, 1)),
        Flow::Down => (x, first_row_with(rows, x, y, true, 1)),
    }
}

/// One step forward or back around a cycle of `n` values.
proof fn lemma_mod_neighbours(a: int, n: int)
    requires
        n > 0,
    ensures
        (a + 1) % n == if a % n == n - 1 { 0 } else { a % n + 1 },
        (a - 1) % n == if a % n == 0 { n - 1 } else { a % n - 1 },
        0 <= a % n < n,
{
    vstd::arithmetic::div_mod::lemma_add_mod_noop(a, 1, n);
    vstd::arithmetic::div_mod::lemma_sub_mod_noop(a, 1, n);
    vstd::arithmetic::div_mod::lemma_mod_self_0(n);
    vstd::arithmetic::div_mod::lemma_mod_add_multiples_vanish(-1, n);
    vstd::arithmetic::div_mod::lemma_mod_bound(a, n);
    if n > 1 {
        vstd::arithmetic::div_mod::lemma_small_mod(1, n as nat);
        vstd::arithmetic::div_mod::lemma_small_mod((n - 1) as nat, n as nat);
        if a % n + 1 < n {
            vstd::arithmetic::div_mod::lemma_small_mod((a % n + 1) as nat, n as nat);
        }
        if a % n > 0 {
            vstd::arithmetic::div_mod::lemma_small_mod((a % n - 1) as nat, n as nat);
        }
    } else {
        vstd::arithmetic::div_mod::lemma_mod_self_0(1);
        assert((a + 1) % 1 == 0 && (a - 1) % 1 == 0 && a % 1 == 0) by {
            vstd::arithmetic::div_mod::lemma_fundamental_div_mod(a + 1, 1);
            vstd::arithmetic::div_mod::lemma_fundamental_div_mod(a - 1, 1);
            vstd::arithmetic::div_mod::lemma_fundamental_div_mod(a, 1);
        }
    }
}

/// Whether every row has as many cells as row 0.
pub open spec fn rectangular(rows: Seq<Seq<Hangul>>) -> bool {
    forall|i: int| 0 <= i < rows.len() ==> #[trigger] rows[i].len() == rows[0].len()
}

/// Stepping right and then left, or left and then right, comes back to the
/// same cell: a horizontal step never leaves its row.
pub proof fn lemma_horizontal_steps_cancel(rows: Seq<Seq<Hangul>>, x: int, y: int)
    requires
        valid_pos(rows, x, y),
    ensures
        ({
            let p = step(rows, x, y, Flow::Right);
            step(rows, p.0, p.1, Flow::Left) == (x, y)
        }),
        ({
            let p = step(rows, x, y, Flow::Left);
            step(rows, p.0, p.1, Flow::Right) == (x, y)
        }),
{
    let len = rows[y].len() as int;
    lemma_mod_neighbours(x, len);
    vstd::arithmetic::div_mod::lemma_small_mod(x as nat, len as nat);
    let r = (x + 1) % len;
    let l = (x - 1) % len;
    lemma_mod_neighbours(r, len);
    lemma_mod_neighbours(l, len);
    vstd::arithmetic::div_mod::lemma_small_mod(r as nat, len as nat);
    vstd::arithmetic::div_mod::lemma_small_mod(l as nat, len as nat);
}

/// In a rectangular grid, stepping down and then up, or up and then down,
/// comes back to the same cell.
pub proof fn lemma_vertical_steps_cancel(rows: Seq<Seq<Hangul>>, x: int, y: int)
    requires
        valid_pos(rows, x, y),
        rectangular(rows),
    ensures
        ({
            let p = step(rows, x, y, Flow::Down);
            step(rows, p.0, p.1, Flow::Up) == (x, y)
        }),
        ({
            let p = step(rows, x, y, Flow::Up);
            step(rows, p.0, p.1, Flow::Down) == (x, y)
        }),
{
    let n = rows.len() as int;
    lemma_mod_neighbours(y, n);
    vstd::arithmetic::div_mod::lemma_small_mod(y as nat, n as nat);
    let d = (y + 1) % n;
    let u = (y - 1) % n;
    assert(rows[d].len() == rows[0].len());
    assert(rows[u].len() == rows[0].len());
    assert(first_row_with(rows, x, y, true, 1) == d);
    assert(first_row_with(rows, x, y, false, 1) == u);
    lemma_mod_neighbours(d, n);
    lemma_mod_neighbours(u, n);
    vstd::arithmetic::div_mod::lemma_small_mod(d as nat, n as nat);
    vstd::arithmetic::div_mod::lemma_small_mod(u as nat, n as nat);
    assert(rows[y].len() == rows[0].len());
    assert(first_row_with(rows, x, d, false, 1) == (d - 1) % n);
    assert(first_row_with(rows, x, u, true, 1) == (u + 1) % n);
}

impl Grid {
    /// A grid over the given rows; `None` when there is no row or row 0 is empty.
    pub fn new(rows: Vec<Vec<Hangul>>) -> (r: Option<Grid>)
        ensures
            grid_wf(cells_of(rows@)) ==> (r matches Some(g) && g@ == cells_of(rows@)),
            !grid_wf(cells_of(rows@)) ==> r is None,
    {
        if rows.len() == 0 || rows[0].len() == 0 {
            None
        } else {
            Some(Grid::from_rows(rows))
        }
    }

    /// A grid over rows of which row 0 holds a cell.
    pub fn from_rows(rows: Vec<Vec<Hangul>>) -> (r: Grid)
        requires
            grid_wf(cells_of(rows@)),
        ensures
            r@ == cells_of(rows@),
    {
        Grid { rows }
    }

    /// The number of rows.
    pub fn height(&self) -> (r: usize)
        ensures
            r == self@.len(),
    {
        self.rows.len()
    }

    /// The number of cells in row `y`.
    pub fn width(&self, y: usize) -> (r: usize)
        requires
            y < self@.len(),
        ensures
            r == self@[y as int].len(),
    {
        self.rows[y].len()
    }

    /// The cell at `(x, y)`.
    pub fn get(&self, x: usize, y: usize) -> (r: Hangul)
        requires
            valid_pos(self@, x as int, y as int),
        ensures
            r == self@[y as int][x as int],
    {
        self.rows[y][x]
    }

    /// The cell one step from `(x, y)` in direction `flow`.
    pub fn next_pos(&self, x: usize, y: usize, flow: Flow) -> (r: (usize, usize))
        requires
            valid_pos(self@, x as int, y as int),
        ensures
            (r.0 as int, r.1 as int) == step(self@, x as int, y as int, flow),
            valid_pos(self@, r.0 as int, r.1 as int),
    {
        let ghost rows = self@;
        let n = self.rows.len();
        match flow {
            Flow::Left | Flow::Right => {
                let len = self.rows[y].len();
                proof {
                    lemma_mod_neighbours(x as int, len as int);
                    vstd::arithmetic::div_mod::lemma_small_mod(x as nat, len as nat);
                }
                let nx = if flow == Flow::Left {
                    if x == 0 { len - 1 } else { x - 1 }
                } else {
                    if x + 1 == len { 0 } else { x + 1 }
                };
                (nx, y)
            },
            Flow::Up | Flow::Down => {
                let down = flow == Flow::Down;
                proof {
                    lemma_mod_neighbours(y as int, n as int);
                    vstd::arithmetic::div_mod::lemma_small_mod(y as nat, n as nat);
                }
                let mut r: usize = if down {
                    if y + 1 == n { 0 } else { y + 1 }
                } else {
                    if y == 0 { n - 1 } else { y - 1 }
                };
                let mut k: usize = 1;
                while k < n && x >= self.rows[r].len()
                    invariant
                        rows == self@,
                        n == rows.len(),
                        valid_pos(rows, x as int, y as int),
                        1 <= k <= n,
                        r as int == scan_row(n as int, y as int, down, k as int),
                        first_row_with(rows, x as int, y as int, down, 1) == first_row_with(
                            rows,
                            x as int,
                            y as int,
                            down,
                            k as nat,
                        ),
                    decreases n - k,
                {
                    proof {
                        lemma_mod_neighbours(y + k, n as int);
                        lemma_mod_neighbours(y - k, n as int);
                        assert(y + k + 1 == (y + k) + 1);
                        assert(y - (k + 1) == (y - k) - 1);
                    }
                    k = k + 1;
                    r = if down {
                        if r + 1 == n { 0 } else { r + 1 }
                    } else {
                        if r == 0 { n - 1 } else { r - 1 }
                    };
                }
                proof {
                    if k >= n {
                        assert(scan_row(n as int, y as int, down, k as int) == y) by {
                            vstd::arithmetic::div_mod::lemma_mod_add_multiples_vanish(y as int, n as int);
                            vstd::arithmetic::div_mod::lemma_mod_sub_multiples_vanish(y as int, n as int);
                            vstd::arithmetic::div_mod::lemma_small_mod(y as nat, n as nat);
                        }
                    }
                }
                (x, r)
            },
        }
    }
}

} // verus!
