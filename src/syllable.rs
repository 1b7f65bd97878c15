//! Decoding a Hangul syllable into its initial, medial and final parts.
use vstd::prelude::*;

verus! {

/// First code point of the Hangul syllable block (`가`).
pub const SYLLABLE_FIRST: u32 = 0xAC00;

/// Last code point of the Hangul syllable block (`힣`).
pub const SYLLABLE_LAST: u32 = 0xD7A3;

/// The initial consonant of a syllable: the operator of a cell.
#[derive(Debug, Clone, Copy, PartialEq, Eq, Structural)]
pub enum Cho {
    G,
    Gg,
    N,
    D,
    Dd,
    R,
    M,
    B,
    Bb,
    S,
    Ss,
    Ng,
    J,
    Jj,
    Ch,
    K,
    T,
    P,
    H,
    Blank,
}

/// The medial vowel of a syllable: how control moves on from a cell.
#[derive(Debug, Clone, Copy, PartialEq, Eq, Structural)]
pub enum Jung {
    A,
    Ae,
    Ya,
    Yae,
    Eo,
    E,
    Yeo,
    Ye,
    O,
    Wa,
    Wae,
    Oe,
    Yo,
    U,
    Wo,
    We,
    Wi,
    Yu,
    Eu,
    Ui,
    I,
    Blank,
}

/// The final consonant of a syllable: the operand of a cell.
#[derive(Debug, Clone, Copy, PartialEq, Eq, Structural)]
pub enum Jong {
    Blank,
    G,
    Gg,
    Gs,
    N,
    Nj,
    Nh,
    D,
    L,
    Lg,
    Lm,
    Lb,
    Ls,
    Lt,
    Lp,
    Lh,
    M,
    B,
    Bs,
    S,
    Ss,
    Ng,
    J,
    Ch,
    K,
    T,
    P,
    H,
}

impl Cho {
    /// The consonant at position `n` of the syllable block's ordering
    /// (the last one for every larger `n`).
    pub open spec fn at(n: int) -> Cho {
        if n == 0 {
            Cho::G
        } else if n == 1 {
            Cho::Gg
        } else if n == 2 {
            Cho::N
        } else if n == 3 {
            Cho::D
        } else if n == 4 {
            Cho::Dd
        } else if n == 5 {
            Cho::R
        } else if n == 6 {
            Cho::M
        } else if n == 7 {
            Cho::B
        } else if n == 8 {
            Cho::Bb
        } else if n == 9 {
            Cho::S
        } else if n == 10 {
            Cho::Ss
        } else if n == 11 {
            Cho::Ng
        } else if n == 12 {
            Cho::J
        } else if n == 13 {
            Cho::Jj
        } else if n == 14 {
            Cho::Ch
        } else if n == 15 {
            Cho::K
        } else if n == 16 {
            Cho::T
        } else if n == 17 {
            Cho::P
        } else {
            Cho::H
        }
    }

    /// Position of the consonant in the syllable block's ordering; `Blank` comes last.
    pub open spec fn index(self) -> nat {
        match self {
            Cho::G => 0,
            Cho::Gg => 1,
            Cho::N => 2,
            Cho::D => 3,
            Cho::Dd => 4,
            Cho::R => 5,
            Cho::M => 6,
            Cho::B => 7,
            Cho::Bb => 8,
            Cho::S => 9,
            Cho::Ss => 10,
            Cho::Ng => 11,
            Cho::J => 12,
            Cho::Jj => 13,
            Cho::Ch => 14,
            Cho::K => 15,
            Cho::T => 16,
            Cho::P => 17,
            Cho::H => 18,
            Cho::Blank => 19,
        }
    }

    /// The consonant at position `n` of the syllable block's ordering.
    pub fn from_index(n: u32) -> (r: Cho)
        requires
            n < 19,
        ensures
            r == Cho::at(n as int),
            r.index() == n,
    {
        match n {
            0 => Cho::G,
            1 => Cho::Gg,
            2 => Cho::N,
            3 => Cho::D,
            4 => Cho::Dd,
            5 => Cho::R,
            6 => Cho::M,
            7 => Cho::B,
            8 => Cho::Bb,
            9 => Cho::S,
            10 => Cho::Ss,
            11 => Cho::Ng,
            12 => Cho::J,
            13 => Cho::Jj,
            14 => Cho::Ch,
            15 => Cho::K,
            16 => Cho::T,
            17 => Cho::P,
            _ => Cho::H,
        }
    }
}

impl Jung {
    /// The vowel at position `n` of the syllable block's ordering
    /// (the last one for every larger `n`).
    pub open spec fn at(n: int) -> Jung {
        if n == 0 {
            Jung::A
        } else if n == 1 {
            Jung::Ae
        } else if n == 2 {
            Jung::Ya
        } else if n == 3 {
            Jung::Yae
        } else if n == 4 {
            Jung::Eo
        } else if n == 5 {
            Jung::E
        } else if n == 6 {
            Jung::Yeo
        } else if n == 7 {
            Jung::Ye
        } else if n == 8 {
            Jung::O
        } else if n == 9 {
            Jung::Wa
        } else if n == 10 {
            Jung::Wae
        } else if n == 11 {
            Jung::Oe
        } else if n == 12 {
            Jung::Yo
        } else if n == 13 {
            Jung::U
        } else if n == 14 {
            Jung::Wo
        } else if n == 15 {
            Jung::We
        } else if n == 16 {
            Jung::Wi
        } else if n == 17 {
            Jung::Yu
        } else if n == 18 {
            Jung::Eu
        } else if n == 19 {
            Jung::Ui
        } else {
            Jung::I
        }
    }

    /// Position of the vowel in the syllable block's ordering; `Blank` comes last.
    pub open spec fn index(self) -> nat {
        match self {
            Jung::A => 0,
            Jung::Ae => 1,
            Jung::Ya => 2,
            Jung::Yae => 3,
            Jung::Eo => 4,
            Jung::E => 5,
            Jung::Yeo => 6,
            Jung::Ye => 7,
            Jung::O => 8,
            Jung::Wa => 9,
            Jung::Wae => 10,
            Jung::Oe => 11,
            Jung::Yo => 12,
            Jung::U => 13,
            Jung::Wo => 14,
            Jung::We => 15,
            Jung::Wi => 16,
            Jung::Yu => 17,
            Jung::Eu => 18,
            Jung::Ui => 19,
            Jung::I => 20,
            Jung::Blank => 21,
        }
    }

    /// The vowel at position `n` of the syllable block's ordering.
    pub fn from_index(n: u32) -> (r: Jung)
        requires
            n < 21,
        ensures
            r == Jung::at(n as int),
            r.index() == n,
    {
        match n {
            0 => Jung::A,
            1 => Jung::Ae,
            2 => Jung::Ya,
            3 => Jung::Yae,
            4 => Jung::Eo,
            5 => Jung::E,
            6 => Jung::Yeo,
            7 => Jung::Ye,
            8 => Jung::O,
            9 => Jung::Wa,
            10 => Jung::Wae,
            11 => Jung::Oe,
            12 => Jung::Yo,
            13 => Jung::U,
            14 => Jung::Wo,
            15 => Jung::We,
            16 => Jung::Wi,
            17 => Jung::Yu,
            18 => Jung::Eu,
            19 => Jung::Ui,
            _ => Jung::I,
        }
    }
}

impl Jong {
    /// The final consonant at position `n` of the syllable block's ordering
    /// (the last one for every larger `n`).
    pub open spec fn at(n: int) -> Jong {
        if n == 0 {
            Jong::Blank
        } else if n == 1 {
            Jong::G
        } else if n == 2 {
            Jong::Gg
        } else if n == 3 {
            Jong::Gs
        } else if n == 4 {
            Jong::N
        } else if n == 5 {
            Jong::Nj
        } else if n == 6 {
            Jong::Nh
        } else if n == 7 {
            Jong::D
        } else if n == 8 {
            Jong::L
        } else if n == 9 {
            Jong::Lg
        } else if n == 10 {
            Jong::Lm
        } else if n == 11 {
            Jong::Lb
        } else if n == 12 {
            Jong::Ls
        } else if n == 13 {
            Jong::Lt
        } else if n == 14 {
            Jong::Lp
        } else if n == 15 {
            Jong::Lh
        } else if n == 16 {
            Jong::M
        } else if n == 17 {
            Jong::B
        } else if n == 18 {
            Jong::Bs
        } else if n == 19 {
            Jong::S
        } else if n == 20 {
            Jong::Ss
        } else if n == 21 {
            Jong::Ng
        } else if n == 22 {
            Jong::J
        } else if n == 23 {
            Jong::Ch
        } else if n == 24 {
            Jong::K
        } else if n == 25 {
            Jong::T
        } else if n == 26 {
            Jong::P
        } else {
            Jong::H
        }
    }

    /// Position of the final consonant in the syllable block's ordering;
    /// `Blank` (no final consonant) is 0.
    pub open spec fn index(self) -> nat {
        match self {
            Jong::Blank => 0,
            Jong::G => 1,
            Jong::Gg => 2,
            Jong::Gs => 3,
            Jong::N => 4,
            Jong::Nj => 5,
            Jong::Nh => 6,
            Jong::D => 7,
            Jong::L => 8,
            Jong::Lg => 9,
            Jong::Lm => 10,
            Jong::Lb => 11,
            Jong::Ls => 12,
            Jong::Lt => 13,
            Jong::Lp => 14,
            Jong::Lh => 15,
            Jong::M => 16,
            Jong::B => 17,
            Jong::Bs => 18,
            Jong::S => 19,
            Jong::Ss => 20,
            Jong::Ng => 21,
            Jong::J => 22,
            Jong::Ch => 23,
            Jong::K => 24,
            Jong::T => 25,
            Jong::P => 26,
            Jong::H => 27,
        }
    }

    /// The final consonant at position `n` of the syllable block's ordering.
    pub fn from_index(n: u32) -> (r: Jong)
        requires
            n < 28,
        ensures
            r == Jong::at(n as int),
            r.index() == n,
    {
        match n {
            0 => Jong::Blank,
            1 => Jong::G,
            2 => Jong::Gg,
            3 => Jong::Gs,
            4 => Jong::N,
            5 => Jong::Nj,
            6 => Jong::Nh,
            7 => Jong::D,
            8 => Jong::L,
            9 => Jong::Lg,
            10 => Jong::Lm,
            11 => Jong::Lb,
            12 => Jong::Ls,
            13 => Jong::Lt,
            14 => Jong::Lp,
            15 => Jong::Lh,
            16 => Jong::M,
            17 => Jong::B,
            18 => Jong::Bs,
            19 => Jong::S,
            20 => Jong::Ss,
            21 => Jong::Ng,
            22 => Jong::J,
            23 => Jong::Ch,
            24 => Jong::K,
            25 => Jong::T,
            26 => Jong::P,
            _ => Jong::H,
        }
    }

    /// The position as a byte: the storage that this final consonant names.
    pub fn code(&self) -> (r: u8)
        ensures
            r == self.index(),
    {
        match *self {
            Jong::Blank => 0,
            Jong::G => 1,
            Jong::Gg => 2,
            Jong::Gs => 3,
            Jong::N => 4,
            Jong::Nj => 5,
            Jong::Nh => 6,
            Jong::D => 7,
            Jong::L => 8,
            Jong::Lg => 9,
            Jong::Lm => 10,
            Jong::Lb => 11,
            Jong::Ls => 12,
            Jong::Lt => 13,
            Jong::Lp => 14,
            Jong::Lh => 15,
            Jong::M => 16,
            Jong::B => 17,
            Jong::Bs => 18,
            Jong::S => 19,
            Jong::Ss => 20,
            Jong::Ng => 21,
            Jong::J => 22,
            Jong::Ch => 23,
            Jong::K => 24,
            Jong::T => 25,
            Jong::P => 26,
            Jong::H => 27,
        }
    }

    /// The two final consonants reserved for input and output: `Ng` stands
    /// for an integer, `H` for a character.
    pub open spec fn is_io(self) -> bool {
        self == Jong::Ng || self == Jong::H
    }

    /// The numeral that a final consonant carries: its stroke count.
    pub open spec fn strokes(self) -> nat {
        match self {
            Jong::Blank => 0,
            Jong::G => 2,
            Jong::Gg => 4,
            Jong::Gs => 4,
            Jong::N => 2,
            Jong::Nj => 5,
            Jong::Nh => 5,
            Jong::D => 3,
            Jong::L => 5,
            Jong::Lg => 7,
            Jong::Lm => 9,
            Jong::Lb => 9,
            Jong::Ls => 7,
            Jong::Lt => 9,
            Jong::Lp => 9,
            Jong::Lh => 8,
            Jong::M => 4,
            Jong::B => 4,
            Jong::Bs => 6,
            Jong::S => 2,
            Jong::Ss => 4,
            Jong::Ng => 0,
            Jong::J => 3,
            Jong::Ch => 4,
            Jong::K => 3,
            Jong::T => 4,
            Jong::P => 4,
            Jong::H => 0,
        }
    }

    /// The numeral carried by this final consonant. The two consonants
    /// reserved for input and output carry none.
    pub fn val(&self) -> (r: usize)
        requires
            !self.is_io(),
        ensures
            r == self.strokes(),
            r <= 9,
    {
        match *self {
            Jong::Blank => 0,
            Jong::G => 2,
            Jong::Gg => 4,
            Jong::Gs => 4,
            Jong::N => 2,
            Jong::Nj => 5,
            Jong::Nh => 5,
            Jong::D => 3,
            Jong::L => 5,
            Jong::Lg => 7,
            Jong::Lm => 9,
            Jong::Lb => 9,
            Jong::Ls => 7,
            Jong::Lt => 9,
            Jong::Lp => 9,
            Jong::Lh => 8,
            Jong::M => 4,
            Jong::B => 4,
            Jong::Bs => 6,
            Jong::S => 2,
            Jong::Ss => 4,
            Jong::J => 3,
            Jong::Ch => 4,
            Jong::K => 3,
            Jong::T => 4,
            Jong::P => 4,
            _ => 0,
        }
    }
}

/// One cell of a program: a decoded syllable and the character it came from.
#[derive(Debug, Clone, Copy, PartialEq, Eq, Structural)]
pub struct Hangul {
    pub cho: Cho,
    pub jung: Jung,
    pub jong: Jong,
    pub c: char,
}

/// Whether `c` lies in the Hangul syllable block.
pub open spec fn in_block(c: char) -> bool {
    SYLLABLE_FIRST <= c as u32 <= SYLLABLE_LAST
}

/// The blank cell, which stands for every character outside the syllable block.
pub open spec fn blank() -> Hangul {
    Hangul { cho: Cho::Blank, jung: Jung::Blank, jong: Jong::Blank, c: '?' }
}

/// What a character decodes to: the blank cell outside the syllable block;
/// inside, the offset `u` from `가` splits as `u = (cho * 21 + jung) * 28 + jong`
/// (and `21 * 28 == 588`).
pub open spec fn decode(c: char) -> Hangul {
    if !in_block(c) {
        blank()
    } else {
        let u = (c as u32 - SYLLABLE_FIRST) as int;
        Hangul {
            cho: Cho::at(u / 588),
            jung: Jung::at((u / 28) % 21),
            jong: Jong::at(u % 28),
            c: c,
        }
    }
}

/// The code point that the three parts of a syllable stand for.
pub open spec fn compose(cho: Cho, jung: Jung, jong: Jong) -> int {
    SYLLABLE_FIRST + (cho.index() * 21 + jung.index()) * 28 + jong.index()
}

impl Hangul {
    /// Whether all three parts are blank.
    pub open spec fn is_blank(self) -> bool {
        self.cho == Cho::Blank && self.jung == Jung::Blank && self.jong == Jong::Blank
    }

    /// The blank cell.
    pub fn none() -> (r: Hangul)
        ensures
            r == blank(),
    {
        Hangul { cho: Cho::Blank, jung: Jung::Blank, jong: Jong::Blank, c: '?' }
    }

    /// Decodes one character.
    pub fn from_char(c: char) -> (r: Hangul)
        ensures
            r == decode(c),
    {
        let u = c as u32;
        if u < SYLLABLE_FIRST || u > SYLLABLE_LAST {
            return Hangul::none();
        }
        let u = u - SYLLABLE_FIRST;
        let cho = Cho::from_index(u / 28 / 21);
        let jung = Jung::from_index((u / 28) % 21);
        let jong = Jong::from_index(u % 28);
        proof {
            let v = u as int;
            assert(v / 28 / 21 == v / 588) by (nonlinear_arith)
                requires
                    v >= 0,
            {
                vstd::arithmetic::div_mod::lemma_div_denominator(v, 28, 21);
            }
        }
        Hangul { cho, jung, jong, c }
    }
}

/// The positions of the three parts of the syllable that `c` is in the block,
/// with their bounds.
proof fn lemma_parts_of(c: char)
    requires
        in_block(c),
    ensures
        ({
            let u = (c as u32 - SYLLABLE_FIRST) as int;
            &&& 0 <= u / 588 < 19
            &&& decode(c).cho.index() == u / 588
            &&& decode(c).jung.index() == (u / 28) % 21
            &&& decode(c).jong.index() == u % 28
            &&& (u / 588 * 21 + (u / 28) % 21) * 28 + u % 28 == u
        }),
{
    let u = (c as u32 - SYLLABLE_FIRST) as int;
    assert(0 <= u / 588 < 19 && u / 28 / 21 == u / 588) by (nonlinear_arith)
        requires
            0 <= u <= 11171,
    {
        vstd::arithmetic::div_mod::lemma_div_denominator(u, 28, 21);
    }
    assert(u / 28 == (u / 28 / 21) * 21 + (u / 28) % 21) by {
        vstd::arithmetic::div_mod::lemma_fundamental_div_mod(u / 28, 21);
    }
    assert(u == (u / 28) * 28 + u % 28) by {
        vstd::arithmetic::div_mod::lemma_fundamental_div_mod(u, 28);
    }
    assert((u / 588 * 21 + (u / 28) % 21) * 28 + u % 28 == u) by (nonlinear_arith)
        requires
            u / 28 == (u / 588) * 21 + (u / 28) % 21,
            u == (u / 28) * 28 + u % 28,
    ;
}

/// A character decodes to the blank cell exactly when it lies outside the
/// syllable block.
pub proof fn lemma_decode_blank_iff_outside(c: char)
    ensures
        decode(c).is_blank() <==> !in_block(c),
{
    if in_block(c) {
        lemma_parts_of(c);
    }
}

/// Inside the syllable block, putting the three decoded parts back together
/// gives the character that was decoded.
pub proof fn lemma_decode_inverse(c: char)
    requires
        in_block(c),
    ensures
        compose(decode(c).cho, decode(c).jung, decode(c).jong) == c as u32,
        decode(c).c == c,
{
    lemma_parts_of(c);
}

/// Inside the syllable block, two characters with the same three parts are
/// the same character.
pub proof fn lemma_decode_injective(c1: char, c2: char)
    requires
        in_block(c1),
        in_block(c2),
        decode(c1).cho == decode(c2).cho,
        decode(c1).jung == decode(c2).jung,
        decode(c1).jong == decode(c2).jong,
    ensures
        c1 == c2,
{
    lemma_decode_inverse(c1);
    lemma_decode_inverse(c2);
}

} // verus!
