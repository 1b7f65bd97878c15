//! The control-flow graph that a program compiles to: one basic block per
//! cell, each a list of operations on the current storage and a way out.
use vstd::prelude::*;
use crate::flow::{Flow, Reflect};

verus! {

/// A two-operand operation: pop `v1`, then `v2`, and push the result.
#[derive(Debug, Clone, Copy, PartialEq, Eq, Structural)]
pub enum Arith {
    /// `v2 / v1`, both read as unsigned.
    Div,
    /// `v1 + v2`, wrapping.
    Add,
    /// `v1 * v2`, wrapping.
    Mul,
    /// `v2 % v1`, both read as unsigned.
    Mod,
    /// `v2 - v1`, wrapping.
    Sub,
    /// 1 when `v2 <= v1` read as unsigned, else 0.
    LessEq,
}

impl Arith {
    /// What the operation pushes, given the words `v1` (popped first) and
    /// `v2`; `None` for a division or remainder by zero. Sums, differences
    /// and products wrap around; quotients, remainders and the comparison
    /// read both words as unsigned.
    pub open spec fn result(self, v1: i32, v2: i32) -> Option<i32> {
        match self {
            Arith::Div => if v1 == 0 {
                None
            } else {
                Some(((v2 as u32) / (v1 as u32)) as i32)
            },
            Arith::Add => Some((v1 + v2) as i32),
            Arith::Mul => Some((v1 * v2) as i32),
            Arith::Mod => if v1 == 0 {
                None
            } else {
                Some(((v2 as u32) % (v1 as u32)) as i32)
            },
            Arith::Sub => Some((v2 - v1) as i32),
            Arith::LessEq => Some(
                if (v2 as u32) <= (v1 as u32) {
                    1
                } else {
                    0
                },
            ),
        }
    }

    /// Computes the word that the operation pushes.
    pub fn apply(&self, v1: i32, v2: i32) -> (r: Option<i32>)
        ensures
            r == self.result(v1, v2),
    {
        assert(v1 != 0 ==> v1 as u32 != 0) by (bit_vector);
        match *self {
            Arith::Div => if v1 == 0 {
                None
            } else {
                let q: u32 = #[verifier::truncate] (v2 as u32) / #[verifier::truncate] (v1 as u32);
                Some(#[verifier::truncate] (q as i32))
            },
            Arith::Add => Some(#[verifier::truncate] ((v1 as i64 + v2 as i64) as i32)),
            Arith::Mul => {
                let a = v1 as i64;
                let b = v2 as i64;
                assert(-0x4000_0000_0000_0000 <= a * b <= 0x4000_0000_0000_0000) by (nonlinear_arith)
                    requires
                        -0x8000_0000 <= a < 0x8000_0000,
                        -0x8000_0000 <= b < 0x8000_0000,
                ;
                Some(#[verifier::truncate] ((a * b) as i32))
            },
            Arith::Mod => if v1 == 0 {
                None
            } else {
                let m: u32 = #[verifier::truncate] (v2 as u32) % #[verifier::truncate] (v1 as u32);
                Some(#[verifier::truncate] (m as i32))
            },
            Arith::Sub => Some(#[verifier::truncate] ((v2 as i64 - v1 as i64) as i32)),
            Arith::LessEq => if #[verifier::truncate] (v2 as u32) <= #[verifier::truncate] (
            v1 as u32) {
                Some(1)
            } else {
                Some(0)
            },
        }
    }
}

/// One operation of a block. All of them act on the current storage but
/// `Transfer`, which also pushes onto the storage that it names.
#[derive(Debug, Clone, Copy, PartialEq, Eq, Structural)]
pub enum Op {
    /// Calls the diagnostic hook with the cell's position and character.
    Trace { x: usize, y: usize, c: char },
    /// Clears the comparison flag.
    ClearFlag,
    /// Pops two words and pushes the result.
    Arith(Arith),
    /// Pops a word and prints it as an integer.
    PrintInt,
    /// Pops a word and prints it as a character.
    PrintChar,
    /// Pops a word and drops it.
    Discard,
    /// Reads an integer and pushes it.
    ReadInt,
    /// Reads a character and pushes its code point.
    ReadChar,
    /// Pushes a literal.
    Push(u32),
    /// Duplicates the top word.
    Dup,
    /// Exchanges the two top words.
    Swap,
    /// Makes the storage with this index the current one.
    Select(u8),
    /// Pops a word and pushes it onto the storage with this index.
    Transfer(u8),
    /// Pops a word and sets the comparison flag when it is zero.
    TestZero,
}

/// A cell of the grid: column `x` of row `y`.
#[derive(Debug, Clone, Copy, PartialEq, Eq, Structural)]
pub struct Pos {
    pub x: usize,
    pub y: usize,
}

/// How control leaves a block.
#[derive(Debug, Clone, Copy, PartialEq, Eq, Structural)]
pub enum Terminator {
    /// The program ends.
    Halt,
    /// Sets the flow register to `flow`, then goes to `reverse` when the
    /// comparison flag is set and to `forward` otherwise.
    Branch { flow: Flow, forward: Pos, reverse: Pos },
    /// Transforms the flow register by `reflect`, then goes to the target
    /// that the new direction names.
    Dispatch {
        reflect: Reflect,
        left: Pos,
        right: Pos,
        up: Pos,
        down: Pos,
    },
}

impl Terminator {
    /// The cells that control may go to from the block.
    pub open spec fn successors(self) -> Seq<Pos> {
        match self {
            Terminator::Halt => seq![],
            Terminator::Branch { forward, reverse, .. } => seq![forward, reverse],
            Terminator::Dispatch { left, right, up, down, .. } => seq![left, right, up, down],
        }
    }
}

/// The basic block of the cell at `(x, y)`.
#[derive(Debug, PartialEq, Eq)]
pub struct Block {
    pub x: usize,
    pub y: usize,
    pub ops: Vec<Op>,
    pub term: Terminator,
}

/// What a block is: its cell, its operations and its way out.
pub type BlockModel = (usize, usize, Seq<Op>, Terminator);

impl View for Block {
    type V = BlockModel;

    open spec fn view(&self) -> BlockModel {
        (self.x, self.y, self.ops@, self.term)
    }
}

/// Why a program is rejected.
#[derive(Debug, Clone, Copy, PartialEq, Eq, Structural)]
pub enum CompileError {
    /// The cell at `(x, y)` tests for zero and then leaves by a vowel that
    /// names no direction, which has no defined meaning.
    TestBeforeReflect { x: usize, y: usize },
}

} // verus!
