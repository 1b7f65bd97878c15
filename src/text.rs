//! The textual form of a compiled module.
use vstd::prelude::*;
use crate::compile::{accepted, block_rows, blocks_of, first_rejected, lemma_first_rejected_unique, Module};
use crate::syllable::Hangul;
use crate::flow::{Flow, Reflect};
use crate::ir::{Arith, Block, BlockModel, Op, Pos, Terminator};

verus! {

/// The decimal digit `d`.
pub open spec fn digit(d: nat) -> char {
    if d == 0 {
        '0'
    } else if d == 1 {
        '1'
    } else if d == 2 {
        '2'
    } else if d == 3 {
        '3'
    } else if d == 4 {
        '4'
    } else if d == 5 {
        '5'
    } else if d == 6 {
        '6'
    } else if d == 7 {
        '7'
    } else if d == 8 {
        '8'
    } else {
        '9'
    }
}

/// `n` written in decimal, without leading zeros.
pub open spec fn dec(n: nat) -> Seq<char>
    decreases n,
{
    if n < 10 {
        seq![digit(n)]
    } else {
        dec(n / 10).push(digit(n % 10))
    }
}

/// The name of the block of cell `p`.
#[verifier::opaque]
pub open spec fn label(p: Pos) -> Seq<char> {
    "aheui_bb_"@ + dec(p.x as nat) + "_"@ + dec(p.y as nat)
}

pub open spec fn flow_text(f: Flow) -> Seq<char> {
    match f {
        Flow::Left => "left"@,
        Flow::Right => "right"@,
        Flow::Up => "up"@,
        Flow::Down => "down"@,
    }
}

pub open spec fn reflect_text(r: Reflect) -> Seq<char> {
    match r {
        Reflect::Keep => "keep"@,
        Reflect::Horizontal => "horizontal"@,
        Reflect::Vertical => "vertical"@,
        Reflect::Both => "both"@,
    }
}

/// The line of one operation.
pub open spec fn op_text(op: Op) -> Seq<char> {
    "  "@ + match op {
        Op::Trace { x, y, c } => "trace "@ + dec(x as nat) + " "@ + dec(y as nat) + " "@ + dec(
            c as u32 as nat,
        ),
        Op::ClearFlag => "clear_flag"@,
        Op::Arith(Arith::Div) => "div"@,
        Op::Arith(Arith::Add) => "add"@,
        Op::Arith(Arith::Mul) => "mul"@,
        Op::Arith(Arith::Mod) => "mod"@,
        Op::Arith(Arith::Sub) => "sub"@,
        Op::Arith(Arith::LessEq) => "less_eq"@,
        Op::PrintInt => "print_int"@,
        Op::PrintChar => "print_char"@,
        Op::Discard => "discard"@,
        Op::ReadInt => "read_int"@,
        Op::ReadChar => "read_char"@,
        Op::Push(n) => "push "@ + dec(n as nat),
        Op::Dup => "dup"@,
        Op::Swap => "swap"@,
        Op::Select(i) => "select "@ + dec(i as nat),
        Op::Transfer(i) => "transfer "@ + dec(i as nat),
        Op::TestZero => "test_zero"@,
    } + "\n"@
}

/// The line of a block's way out.
pub open spec fn term_text(t: Terminator) -> Seq<char> {
    "  "@ + match t {
        Terminator::Halt => "halt"@,
        Terminator::Branch { flow, forward, reverse } => "branch "@ + flow_text(flow) + " "@
            + label(forward) + " "@ + label(reverse),
        Terminator::Dispatch { reflect, left, right, up, down } => "dispatch "@ + reflect_text(
            reflect,
        ) + " "@ + label(left) + " "@ + label(right) + " "@ + label(up) + " "@ + label(down),
    } + "\n"@
}

/// The lines of a list of operations.
pub open spec fn ops_text(ops: Seq<Op>) -> Seq<char>
    decreases ops.len(),
{
    if ops.len() == 0 {
        seq![]
    } else {
        ops_text(ops.drop_last()) + op_text(ops.last())
    }
}

/// The text of one block: its name, its operations and its way out.
pub open spec fn block_text(b: BlockModel) -> Seq<char> {
    label(Pos { x: b.0, y: b.1 }) + ":\n"@ + ops_text(b.2) + term_text(b.3)
}

/// The text of a row of blocks.
pub open spec fn row_text(row: Seq<BlockModel>) -> Seq<char>
    decreases row.len(),
{
    if row.len() == 0 {
        seq![]
    } else {
        row_text(row.drop_last()) + block_text(row.last())
    }
}

/// The text of all rows of blocks.
pub open spec fn rows_text(rows: Seq<Seq<BlockModel>>) -> Seq<char>
    decreases rows.len(),
{
    if rows.len() == 0 {
        seq![]
    } else {
        rows_text(rows.drop_last()) + row_text(rows.last())
    }
}

/// The text of a module: a header that names the module and the function,
/// the flow register and current storage that the function starts with, and
/// the block where it starts; then every block.
pub open spec fn module_text(name: Seq<char>, entry: Seq<char>, blocks: Seq<Seq<BlockModel>>) -> Seq<
    char,
> {
    "module "@ + name + "\n"@ + "function "@ + entry + " flow down storage 0 start "@ + label(
        Pos { x: 0, y: 0 },
    )
        + "\n"@ + rows_text(blocks)
}

/// Compiling the same program twice and writing both results out gives the
/// same outcome: the same blocks, named alike, with the same operations and
/// the same successors, and the same text; or the same rejected cell.
pub proof fn lemma_compile_deterministic(
    rows1: Seq<Seq<Hangul>>,
    rows2: Seq<Seq<Hangul>>,
    name: Seq<char>,
    entry: Seq<char>,
)
    requires
        rows1 == rows2,
    ensures
        accepted(rows1) == accepted(rows2),
        blocks_of(rows1) == blocks_of(rows2),
        module_text(name, entry, blocks_of(rows1)) == module_text(name, entry, blocks_of(rows2)),
        forall|x1: int, y1: int, x2: int, y2: int|
            first_rejected(rows1, x1, y1) && first_rejected(rows2, x2, y2) ==> x1 == x2 && y1
                == y2,
{
    assert forall|x1: int, y1: int, x2: int, y2: int|
        first_rejected(rows1, x1, y1) && first_rejected(rows2, x2, y2) implies x1 == x2 && y1
        == y2 by {
        lemma_first_rejected_unique(rows1, x1, y1, x2, y2);
    }
}

/// Appends the decimal digit `d`.
fn append_digit(out: &mut String, d: u64)
    requires
        d < 10,
    ensures
        final(out)@ == old(out)@.push(digit(d as nat)),
{
    let s = match d {
        0 => "0",
        1 => "1",
        2 => "2",
        3 => "3",
        4 => "4",
        5 => "5",
        6 => "6",
        7 => "7",
        8 => "8",
        _ => "9",
    };
    proof {
        reveal_strlit("0");
        reveal_strlit("1");
        reveal_strlit("2");
        reveal_strlit("3");
        reveal_strlit("4");
        reveal_strlit("5");
        reveal_strlit("6");
        reveal_strlit("7");
        reveal_strlit("8");
        reveal_strlit("9");
    }
    out.append(s);
    proof {
        assert(out@ =~= old(out)@.push(digit(d as nat)));
    }
}

/// Appends `n` in decimal.
fn append_dec(out: &mut String, n: u64)
    ensures
        final(out)@ == old(out)@ + dec(n as nat),
    decreases n,
{
    if n >= 10 {
        append_dec(out, n / 10);
        append_digit(out, n % 10);
        proof {
            assert(out@ =~= old(out)@ + dec(n as nat));
        }
    } else {
        append_digit(out, n);
        proof {
            assert(out@ =~= old(out)@ + dec(n as nat));
        }
    }
}

/// Appends the name of the block of cell `p`.
fn append_label(out: &mut String, p: Pos)
    ensures
        final(out)@ == old(out)@ + label(p),
{
    out.append("aheui_bb_");
    append_dec(out, p.x as u64);
    out.append("_");
    append_dec(out, p.y as u64);
    proof {
        reveal(label);
        assert(out@ =~= old(out)@ + label(p));
    }
}

/// Appends the line of one operation.
fn append_op(out: &mut String, op: Op)
    ensures
        final(out)@ == old(out)@ + op_text(op),
{
    out.append("  ");
    match op {
        Op::Trace { x, y, c } => {
            out.append("trace ");
            append_dec(out, x as u64);
            out.append(" ");
            append_dec(out, y as u64);
            out.append(" ");
            append_dec(out, c as u32 as u64);
        },
        Op::ClearFlag => out.append("clear_flag"),
        Op::Arith(Arith::Div) => out.append("div"),
        Op::Arith(Arith::Add) => out.append("add"),
        Op::Arith(Arith::Mul) => out.append("mul"),
        Op::Arith(Arith::Mod) => out.append("mod"),
        Op::Arith(Arith::Sub) => out.append("sub"),
        Op::Arith(Arith::LessEq) => out.append("less_eq"),
        Op::PrintInt => out.append("print_int"),
        Op::PrintChar => out.append("print_char"),
        Op::Discard => out.append("discard"),
        Op::ReadInt => out.append("read_int"),
        Op::ReadChar => out.append("read_char"),
        Op::Push(n) => {
            out.append("push ");
            append_dec(out, n as u64);
        },
        Op::Dup => out.append("dup"),
        Op::Swap => out.append("swap"),
        Op::Select(i) => {
            out.append("select ");
            append_dec(out, i as u64);
        },
        Op::Transfer(i) => {
            out.append("transfer ");
            append_dec(out, i as u64);
        },
        Op::TestZero => out.append("test_zero"),
    }
    out.append("\n");
    proof {
        assert(out@ =~= old(out)@ + op_text(op));
    }
}

/// Appends the name of a direction.
fn append_flow(out: &mut String, f: Flow)
    ensures
        final(out)@ == old(out)@ + flow_text(f),
{
    match f {
        Flow::Left => out.append("left"),
        Flow::Right => out.append("right"),
        Flow::Up => out.append("up"),
        Flow::Down => out.append("down"),
    }
}

/// Appends the name of a transformation of directions.
fn append_reflect(out: &mut String, r: Reflect)
    ensures
        final(out)@ == old(out)@ + reflect_text(r),
{
    match r {
        Reflect::Keep => out.append("keep"),
        Reflect::Horizontal => out.append("horizontal"),
        Reflect::Vertical => out.append("vertical"),
        Reflect::Both => out.append("both"),
    }
}

/// Appends a two-way branch.
fn append_branch(out: &mut String, flow: Flow, forward: Pos, reverse: Pos)
    ensures
        final(out)@ == old(out)@ + ("branch "@ + flow_text(flow) + " "@ + label(forward) + " "@
            + label(reverse)),
{
    out.append("branch ");
    append_flow(out, flow);
    out.append(" ");
    let ghost mid = out@;
    append_label(out, forward);
    out.append(" ");
    append_label(out, reverse);
    proof {
        assert(out@ =~= mid + (label(forward) + " "@ + label(reverse)));
        assert(out@ =~= old(out)@ + ("branch "@ + flow_text(flow) + " "@ + label(forward) + " "@
            + label(reverse)));
    }
}

/// Appends a four-way dispatch.
fn append_dispatch(out: &mut String, reflect: Reflect, left: Pos, right: Pos, up: Pos, down: Pos)
    ensures
        final(out)@ == old(out)@ + ("dispatch "@ + reflect_text(reflect) + " "@ + label(left)
            + " "@ + label(right) + " "@ + label(up) + " "@ + label(down)),
{
    out.append("dispatch ");
    append_reflect(out, reflect);
    out.append(" ");
    let ghost a = out@;
    append_label(out, left);
    out.append(" ");
    let ghost b = out@;
    append_label(out, right);
    out.append(" ");
    let ghost c = out@;
    append_label(out, up);
    out.append(" ");
    let ghost d = out@;
    append_label(out, down);
    proof {
        assert(out@ =~= d + label(down));
        assert(out@ =~= c + (label(up) + " "@ + label(down)));
        assert(out@ =~= b + (label(right) + " "@ + label(up) + " "@ + label(down)));
        assert(out@ =~= a + (label(left) + " "@ + label(right) + " "@ + label(up) + " "@ + label(
            down,
        )));
        assert(out@ =~= old(out)@ + ("dispatch "@ + reflect_text(reflect) + " "@ + label(left)
            + " "@ + label(right) + " "@ + label(up) + " "@ + label(down)));
    }
}

/// Appends the line of a block's way out.
fn append_term(out: &mut String, t: Terminator)
    ensures
        final(out)@ == old(out)@ + term_text(t),
{
    out.append("  ");
    match t {
        Terminator::Halt => out.append("halt"),
        Terminator::Branch { flow, forward, reverse } => {
            append_branch(out, flow, forward, reverse);
        },
        Terminator::Dispatch { reflect, left, right, up, down } => {
            append_dispatch(out, reflect, left, right, up, down);
        },
    }
    out.append("\n");
    proof {
        assert(out@ =~= old(out)@ + term_text(t));
    }
}

/// Appends the text of one block.
fn append_block(out: &mut String, b: &Block)
    ensures
        final(out)@ == old(out)@ + block_text(b@),
{
    append_label(out, Pos { x: b.x, y: b.y });
    out.append(":\n");
    let ghost start = out@;
    let mut i: usize = 0;
    while i < b.ops.len()
        invariant
            0 <= i <= b.ops@.len(),
            out@ == start + ops_text(b.ops@.take(i as int)),
        decreases b.ops@.len() - i,
    {
        append_op(out, b.ops[i]);
        proof {
            assert(b.ops@.take(i as int + 1).drop_last() =~= b.ops@.take(i as int));
            assert(out@ =~= start + ops_text(b.ops@.take(i as int + 1)));
        }
        i = i + 1;
    }
    append_term(out, b.term);
    proof {
        assert(b.ops@.take(b.ops@.len() as int) =~= b.ops@);
        assert(out@ =~= old(out)@ + block_text(b@));
    }
}

impl Module {
    /// The textual form of the module.
    pub fn to_text(&self) -> (r: String)
        ensures
            r@ == module_text(self.name@, self.entry@, block_rows(self.blocks@)),
    {
        let ghost rows = block_rows(self.blocks@);
        let mut out = String::new();
        out.append("module ");
        out.append(self.name.as_str());
        out.append("\n");
        out.append("function ");
        out.append(self.entry.as_str());
        out.append(" flow down storage 0 start ");
        append_label(&mut out, Pos { x: 0, y: 0 });
        out.append("\n");
        let ghost head = out@;
        let mut y: usize = 0;
        while y < self.blocks.len()
            invariant
                rows == block_rows(self.blocks@),
                0 <= y <= self.blocks@.len(),
                out@ == head + rows_text(rows.take(y as int)),
            decreases self.blocks@.len() - y,
        {
            let row = &self.blocks[y];
            let ghost row_start = out@;
            let mut x: usize = 0;
            while x < row.len()
                invariant
                    rows == block_rows(self.blocks@),
                    0 <= y < self.blocks@.len(),
                    *row == self.blocks@[y as int],
                    0 <= x <= row@.len(),
                    out@ == row_start + row_text(rows[y as int].take(x as int)),
                decreases row@.len() - x,
            {
                append_block(&mut out, &row[x]);
                proof {
                    assert(rows[y as int][x as int] == row@[x as int]@);
                    assert(rows[y as int].take(x as int + 1).drop_last() =~= rows[y as int].take(
                        x as int,
                    ));
                    assert(out@ =~= row_start + row_text(rows[y as int].take(x as int + 1)));
                }
                x = x + 1;
            }
            proof {
                assert(rows[y as int].take(row@.len() as int) =~= rows[y as int]);
                assert(rows.take(y as int + 1).drop_last() =~= rows.take(y as int));
                assert(out@ =~= head + rows_text(rows.take(y as int + 1)));
            }
            y = y + 1;
        }
        proof {
            assert(rows.take(self.blocks@.len() as int) =~= rows);
            assert(out@ =~= module_text(self.name@, self.entry@, rows));
        }
        out
    }
}

} // verus!
