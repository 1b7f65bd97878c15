//! Compiling a grid of cells into one basic block per cell.
use vstd::prelude::*;
use crate::flow::{is_double_step, Flow, Reflect};
use crate::grid::{cells_of, grid_wf, step, valid_pos, Grid};
use crate::ir::{Arith, Block, BlockModel, CompileError, Op, Pos, Terminator};
use crate::source::{parse_rows, rows_of};
use crate::syllable::{Cho, Hangul, Jong, Jung};

verus! {

/// The operations that a cell's initial consonant calls for, after the trace
/// and the clearing of the comparison flag.
pub open spec fn cell_ops(h: Hangul) -> Seq<Op> {
    match h.cho {
        Cho::N => seq![Op::Arith(Arith::Div)],
        Cho::D => seq![Op::Arith(Arith::Add)],
        Cho::Dd => seq![Op::Arith(Arith::Mul)],
        Cho::R => seq![Op::Arith(Arith::Mod)],
        Cho::T => seq![Op::Arith(Arith::Sub)],
        Cho::J => seq![Op::Arith(Arith::LessEq)],
        Cho::M => if h.jong == Jong::Ng {
            seq![Op::PrintInt]
        } else if h.jong == Jong::H {
            seq![Op::PrintChar]
        } else {
            seq![Op::Discard]
        },
        Cho::B => if h.jong == Jong::Ng {
            seq![Op::ReadInt]
        } else if h.jong == Jong::H {
            seq![Op::ReadChar]
        } else {
            seq![Op::Push(h.jong.strokes() as u32)]
        },
        Cho::Bb => seq![Op::Dup],
        Cho::P => seq![Op::Swap],
        Cho::S => seq![Op::Select(h.jong.index() as u8)],
        Cho::Ss => seq![Op::Transfer(h.jong.index() as u8)],
        Cho::Ch => seq![Op::TestZero],
        _ => seq![],
    }
}

/// All the operations of the block of cell `h` at `(x, y)`.
pub open spec fn block_ops(h: Hangul, x: usize, y: usize) -> Seq<Op> {
    seq![Op::Trace { x, y, c: h.c }, Op::ClearFlag] + cell_ops(h)
}

/// Whether a cell has no meaning: it tests for zero and then leaves by a
/// vowel that names no direction.
pub open spec fn rejected(h: Hangul) -> bool {
    h.cho == Cho::Ch && Flow::of_jung(h.jung) is None
}

/// A position as a cell of the graph.
pub open spec fn to_pos(p: (int, int)) -> Pos {
    Pos { x: p.0 as usize, y: p.1 as usize }
}

/// Where a directional vowel leads: one step, or two for the doubled vowels.
pub open spec fn advance(rows: Seq<Seq<Hangul>>, x: int, y: int, f: Flow, double: bool) -> (
    int,
    int,
) {
    let p = step(rows, x, y, f);
    if double {
        step(rows, p.0, p.1, f)
    } else {
        p
    }
}

/// How control leaves the block of the cell at `(x, y)`.
pub open spec fn exit_of(rows: Seq<Seq<Hangul>>, x: int, y: int) -> Terminator {
    let h = rows[y][x];
    if h.cho == Cho::H {
        Terminator::Halt
    } else {
        match Flow::of_jung(h.jung) {
            Some(f) => Terminator::Branch {
                flow: f,
                forward: to_pos(advance(rows, x, y, f, is_double_step(h.jung))),
                reverse: to_pos(advance(rows, x, y, f.opposite(), is_double_step(h.jung))),
            },
            None => Terminator::Dispatch {
                reflect: Reflect::of_jung(h.jung),
                left: to_pos(step(rows, x, y, Flow::Left)),
                right: to_pos(step(rows, x, y, Flow::Right)),
                up: to_pos(step(rows, x, y, Flow::Up)),
                down: to_pos(step(rows, x, y, Flow::Down)),
            },
        }
    }
}

/// The block of the cell at `(x, y)`.
pub open spec fn block_of(rows: Seq<Seq<Hangul>>, x: int, y: int) -> BlockModel {
    (x as usize, y as usize, block_ops(rows[y][x], x as usize, y as usize), exit_of(rows, x, y))
}

/// The blocks of all cells, laid out as the grid is.
pub open spec fn blocks_of(rows: Seq<Seq<Hangul>>) -> Seq<Seq<BlockModel>> {
    Seq::new(rows.len(), |y: int| Seq::new(rows[y].len(), |x: int| block_of(rows, x, y)))
}

/// Whether no cell of the grid is rejected.
pub open spec fn accepted(rows: Seq<Seq<Hangul>>) -> bool {
    forall|x: int, y: int| valid_pos(rows, x, y) ==> !#[trigger] rejected(rows[y][x])
}

/// Whether `(x1, y1)` comes before `(x2, y2)` in row-major order.
pub open spec fn before(x1: int, y1: int, x2: int, y2: int) -> bool {
    y1 < y2 || (y1 == y2 && x1 < x2)
}

/// The first rejected cell in row-major order is `(x, y)`.
pub open spec fn first_rejected(rows: Seq<Seq<Hangul>>, x: int, y: int) -> bool {
    &&& valid_pos(rows, x, y)
    &&& rejected(rows[y][x])
    &&& forall|x2: int, y2: int|
        valid_pos(rows, x2, y2) && before(x2, y2, x, y) ==> !#[trigger] rejected(rows[y2][x2])
}

/// A cell whose initial consonant ends the program halts whatever its
/// vowel: it is never rejected, and its block has no successor.
pub proof fn lemma_halt_has_no_successor(rows: Seq<Seq<Hangul>>, x: int, y: int)
    requires
        valid_pos(rows, x, y),
        rows[y][x].cho == Cho::H,
    ensures
        !rejected(rows[y][x]),
        exit_of(rows, x, y) == Terminator::Halt,
        exit_of(rows, x, y).successors().len() == 0,
        blocks_of(rows)[y][x].3 == Terminator::Halt,
{
}

/// At most one cell is the first rejected one, so a rejected program is
/// always rejected for the same cell.
pub proof fn lemma_first_rejected_unique(rows: Seq<Seq<Hangul>>, x1: int, y1: int, x2: int, y2: int)
    requires
        first_rejected(rows, x1, y1),
        first_rejected(rows, x2, y2),
    ensures
        x1 == x2 && y1 == y2,
{
    if before(x1, y1, x2, y2) {
        assert(!rejected(rows[y1][x1]));
    } else if before(x2, y2, x1, y1) {
        assert(!rejected(rows[y2][x2]));
    }
}

/// The blocks held in rows of vectors.
pub open spec fn block_rows(blocks: Seq<Vec<Block>>) -> Seq<Seq<BlockModel>> {
    blocks.map_values(|row: Vec<Block>| row@.map_values(|b: Block| b@))
}

/// A compiled program: a function named `entry` in a module named `name`,
/// whose blocks stand as the cells of the grid do. The function starts with
/// the flow register pointing down, storage 0 current and the comparison
/// flag clear, and goes to the block of cell `(0, 0)`.
pub struct Module {
    pub name: String,
    pub entry: String,
    pub blocks: Vec<Vec<Block>>,
}

/// A program ready to compile: its grid, and the names of the module and of
/// the function that it becomes.
pub struct Aheui {
    pub grid: Grid,
    pub name: String,
    pub entry: String,
}

impl Aheui {
    /// The cells of the program.
    pub open spec fn cells(&self) -> Seq<Seq<Hangul>> {
        self.grid@
    }

    /// A program over the given rows; row 0 must hold a cell.
    pub fn new(h: Vec<Vec<Hangul>>, md_name: &str, fn_name: &str) -> (r: Aheui)
        requires
            grid_wf(cells_of(h@)),
        ensures
            r.cells() == cells_of(h@),
            r.name@ == md_name@,
            r.entry@ == fn_name@,
    {
        Aheui {
            grid: Grid::from_rows(h),
            name: String::from_str(md_name),
            entry: String::from_str(fn_name),
        }
    }

    /// A program over the given rows; `None` when row 0 holds no cell.
    pub fn try_new(h: Vec<Vec<Hangul>>, md_name: &str, fn_name: &str) -> (r: Option<Aheui>)
        ensures
            grid_wf(cells_of(h@)) ==> (r matches Some(a) && a.cells() == cells_of(h@)
                && a.name@ == md_name@ && a.entry@ == fn_name@),
            !grid_wf(cells_of(h@)) ==> r is None,
    {
        match Grid::new(h) {
            Some(grid) => Some(
                Aheui { grid, name: String::from_str(md_name), entry: String::from_str(fn_name) },
            ),
            None => None,
        }
    }

    /// The program that a text holds; `None` when its first line holds no cell.
    pub fn from_source(src: &[char], md_name: &str, fn_name: &str) -> (r: Option<Aheui>)
        ensures
            grid_wf(rows_of(src@)) ==> (r matches Some(a) && a.cells() == rows_of(src@)
                && a.name@ == md_name@ && a.entry@ == fn_name@),
            !grid_wf(rows_of(src@)) ==> r is None,
    {
        Aheui::try_new(parse_rows(src), md_name, fn_name)
    }

    /// The cell one step from `(x, y)` in direction `flow`.
    pub fn next_pos(&self, x: usize, y: usize, flow: Flow) -> (r: (usize, usize))
        requires
            valid_pos(self.cells(), x as int, y as int),
        ensures
            (r.0 as int, r.1 as int) == step(self.cells(), x as int, y as int, flow),
            valid_pos(self.cells(), r.0 as int, r.1 as int),
    {
        self.grid.next_pos(x, y, flow)
    }

    /// The cell that a directional vowel at `(x, y)` leads to.
    fn advance(&self, x: usize, y: usize, flow: Flow, double: bool) -> (r: Pos)
        requires
            valid_pos(self.cells(), x as int, y as int),
        ensures
            r == to_pos(advance(self.cells(), x as int, y as int, flow, double)),
            valid_pos(self.cells(), r.x as int, r.y as int),
    {
        let (nx, ny) = self.next_pos(x, y, flow);
        if double {
            let (mx, my) = self.next_pos(nx, ny, flow);
            Pos { x: mx, y: my }
        } else {
            Pos { x: nx, y: ny }
        }
    }

    /// The basic block of the cell at `(x, y)`.
    pub fn gen_bb(&self, x: usize, y: usize) -> (r: Result<Block, CompileError>)
        requires
            valid_pos(self.cells(), x as int, y as int),
        ensures
            rejected(self.cells()[y as int][x as int]) ==> r == Err::<Block, CompileError>(
                CompileError::TestBeforeReflect { x, y },
            ),
            !rejected(self.cells()[y as int][x as int]) ==> (r matches Ok(b) && b@ == block_of(
                self.cells(),
                x as int,
                y as int,
            )),
    {
        let h = self.grid.get(x, y);
        let mut ops: Vec<Op> = Vec::new();
        ops.push(Op::Trace { x, y, c: h.c });
        ops.push(Op::ClearFlag);
        match h.cho {
            Cho::N => ops.push(Op::Arith(Arith::Div)),
            Cho::D => ops.push(Op::Arith(Arith::Add)),
            Cho::Dd => ops.push(Op::Arith(Arith::Mul)),
            Cho::R => ops.push(Op::Arith(Arith::Mod)),
            Cho::T => ops.push(Op::Arith(Arith::Sub)),
            Cho::J => ops.push(Op::Arith(Arith::LessEq)),
            Cho::M => {
                if h.jong == Jong::Ng {
                    ops.push(Op::PrintInt);
                } else if h.jong == Jong::H {
                    ops.push(Op::PrintChar);
                } else {
                    ops.push(Op::Discard);
                }
            },
            Cho::B => {
                if h.jong == Jong::Ng {
                    ops.push(Op::ReadInt);
                } else if h.jong == Jong::H {
                    ops.push(Op::ReadChar);
                } else {
                    ops.push(Op::Push(h.jong.val() as u32));
                }
            },
            Cho::Bb => ops.push(Op::Dup),
            Cho::P => ops.push(Op::Swap),
            Cho::S => ops.push(Op::Select(h.jong.code())),
            Cho::Ss => ops.push(Op::Transfer(h.jong.code())),
            Cho::Ch => ops.push(Op::TestZero),
            _ => {},
        }
        proof {
            assert(ops@ =~= block_ops(h, x, y));
        }
        if h.cho == Cho::H {
            return Ok(Block { x, y, ops, term: Terminator::Halt });
        }
        match Flow::from_jung(h.jung) {
            Some(flow) => {
                let double = h.jung == Jung::Ya || h.jung == Jung::Yeo || h.jung == Jung::Yo
                    || h.jung == Jung::Yu;
                let forward = self.advance(x, y, flow, double);
                let reverse = self.advance(x, y, flow.reverse(), double);
                Ok(Block { x, y, ops, term: Terminator::Branch { flow, forward, reverse } })
            },
            None => {
                if h.cho == Cho::Ch {
                    return Err(CompileError::TestBeforeReflect { x, y });
                }
                let reflect = Reflect::from_jung(h.jung);
                let (lx, ly) = self.next_pos(x, y, Flow::Left);
                let (rx, ry) = self.next_pos(x, y, Flow::Right);
                let (ux, uy) = self.next_pos(x, y, Flow::Up);
                let (dx, dy) = self.next_pos(x, y, Flow::Down);
                let term = Terminator::Dispatch {
                    reflect,
                    left: Pos { x: lx, y: ly },
                    right: Pos { x: rx, y: ry },
                    up: Pos { x: ux, y: uy },
                    down: Pos { x: dx, y: dy },
                };
                Ok(Block { x, y, ops, term })
            },
        }
    }

    /// Compiles every cell, row by row; the first rejected cell in that
    /// order rejects the program.
    pub fn compile(&self) -> (r: Result<Module, CompileError>)
        ensures
            accepted(self.cells()) ==> (r matches Ok(m) && m.name@ == self.name@ && m.entry@
                == self.entry@ && block_rows(m.blocks@) == blocks_of(self.cells())),
            !accepted(self.cells()) ==> (r matches Err(CompileError::TestBeforeReflect { x, y })
                && first_rejected(self.cells(), x as int, y as int)),
    {
        let ghost rows = self.cells();
        let ghost want = blocks_of(rows);
        let n = self.grid.height();
        let mut blocks: Vec<Vec<Block>> = Vec::new();
        let mut y: usize = 0;
        while y < n
            invariant
                rows == self.cells(),
                want == blocks_of(rows),
                n == rows.len(),
                0 <= y <= n,
                block_rows(blocks@) =~= want.take(y as int),
                forall|x2: int, y2: int|
                    valid_pos(rows, x2, y2) && y2 < y ==> !#[trigger] rejected(rows[y2][x2]),
            decreases n - y,
        {
            let w = self.grid.width(y);
            let mut row: Vec<Block> = Vec::new();
            let mut x: usize = 0;
            while x < w
                invariant
                    rows == self.cells(),
                    want == blocks_of(rows),
                    n == rows.len(),
                    0 <= y < n,
                    w == rows[y as int].len(),
                    0 <= x <= w,
                    block_rows(blocks@) =~= want.take(y as int),
                    row@.map_values(|b: Block| b@) =~= want[y as int].take(x as int),
                    forall|x2: int, y2: int|
                        valid_pos(rows, x2, y2) && before(x2, y2, x as int, y as int)
                            ==> !#[trigger] rejected(rows[y2][x2]),
                decreases w - x,
            {
                let ghost before_push = row@;
                match self.gen_bb(x, y) {
                    Ok(b) => {
                        row.push(b);
                        proof {
                            assert(row@ == before_push.push(b));
                            assert(row@.map_values(|b: Block| b@) =~= before_push.map_values(
                                |b: Block| b@,
                            ).push(b@));
                            assert(want[y as int][x as int] == block_of(rows, x as int, y as int));
                        }
                    },
                    Err(e) => {
                        return Err(e);
                    },
                }
                x = x + 1;
            }
            let ghost blocks_before = blocks@;
            proof {
                assert(want[y as int].take(w as int) =~= want[y as int]);
            }
            blocks.push(row);
            proof {
                assert(blocks@ == blocks_before.push(row));
                assert(block_rows(blocks@) =~= block_rows(blocks_before).push(
                    row@.map_values(|b: Block| b@),
                ));
                assert(want.take(y as int + 1) =~= want.take(y as int).push(want[y as int]));
            }
            y = y + 1;
        }
        proof {
            assert(want.take(n as int) =~= want);
        }
        Ok(Module { name: self.name.clone(), entry: self.entry.clone(), blocks })
    }
}

} // verus!
