//! Directions of travel, and how the medial vowel of a cell picks one.
use vstd::prelude::*;
use crate::syllable::Jung;

verus! {

/// A direction of travel across the grid; its code is the value that the
/// run-time flow register holds.
#[derive(Debug, Clone, Copy, PartialEq, Eq, Structural)]
pub enum Flow {
    Left,
    Right,
    Up,
    Down,
}

/// How a non-directional vowel transforms the current direction.
#[derive(Debug, Clone, Copy, PartialEq, Eq, Structural)]
pub enum Reflect {
    /// Keep the direction.
    Keep,
    /// Exchange left and right.
    Horizontal,
    /// Exchange up and down.
    Vertical,
    /// Exchange both pairs.
    Both,
}

impl Flow {
    pub open spec fn opposite(self) -> Flow {
        match self {
            Flow::Left => Flow::Right,
            Flow::Right => Flow::Left,
            Flow::Up => Flow::Down,
            Flow::Down => Flow::Up,
        }
    }

    /// The value of the flow register for this direction.
    pub open spec fn index(self) -> nat {
        match self {
            Flow::Left => 0,
            Flow::Right => 1,
            Flow::Up => 2,
            Flow::Down => 3,
        }
    }

    /// The direction that a directional vowel names, if it names one.
    pub open spec fn of_jung(jung: Jung) -> Option<Flow> {
        match jung {
            Jung::A | Jung::Ya => Some(Flow::Right),
            Jung::Eo | Jung::Yeo => Some(Flow::Left),
            Jung::O | Jung::Yo => Some(Flow::Up),
            Jung::U | Jung::Yu => Some(Flow::Down),
            _ => None,
        }
    }

    /// The opposite direction.
    pub fn reverse(&self) -> (r: Flow)
        ensures
            r == self.opposite(),
    {
        match *self {
            Flow::Left => Flow::Right,
            Flow::Right => Flow::Left,
            Flow::Up => Flow::Down,
            Flow::Down => Flow::Up,
        }
    }

    /// The value of the flow register for this direction.
    pub fn code(&self) -> (r: u8)
        ensures
            r == self.index(),
    {
        match *self {
            Flow::Left => 0,
            Flow::Right => 1,
            Flow::Up => 2,
            Flow::Down => 3,
        }
    }

    /// The direction that a directional vowel names; `None` for the other vowels.
    pub fn from_jung(jung: Jung) -> (r: Option<Flow>)
        ensures
            r == Flow::of_jung(jung),
    {
        match jung {
            Jung::A | Jung::Ya => Some(Flow::Right),
            Jung::Eo | Jung::Yeo => Some(Flow::Left),
            Jung::O | Jung::Yo => Some(Flow::Up),
            Jung::U | Jung::Yu => Some(Flow::Down),
            _ => None,
        }
    }
}

/// Whether a directional vowel moves two cells at a time.
pub open spec fn is_double_step(jung: Jung) -> bool {
    jung == Jung::Ya || jung == Jung::Yeo || jung == Jung::Yo || jung == Jung::Yu
}

impl Reflect {
    /// The transformation that a non-directional vowel applies.
    pub open spec fn of_jung(jung: Jung) -> Reflect {
        match jung {
            Jung::I => Reflect::Horizontal,
            Jung::Eu => Reflect::Vertical,
            Jung::Ui => Reflect::Both,
            _ => Reflect::Keep,
        }
    }

    /// Where the transformation sends a direction.
    pub open spec fn image(self, f: Flow) -> Flow {
        match (self, f) {
            (Reflect::Horizontal, Flow::Left) | (Reflect::Both, Flow::Left) => Flow::Right,
            (Reflect::Horizontal, Flow::Right) | (Reflect::Both, Flow::Right) => Flow::Left,
            (Reflect::Vertical, Flow::Up) | (Reflect::Both, Flow::Up) => Flow::Down,
            (Reflect::Vertical, Flow::Down) | (Reflect::Both, Flow::Down) => Flow::Up,
            _ => f,
        }
    }

    /// The transformation that a non-directional vowel applies.
    pub fn from_jung(jung: Jung) -> (r: Reflect)
        ensures
            r == Reflect::of_jung(jung),
    {
        match jung {
            Jung::I => Reflect::Horizontal,
            Jung::Eu => Reflect::Vertical,
            Jung::Ui => Reflect::Both,
            _ => Reflect::Keep,
        }
    }

    /// Applies the transformation to a direction.
    pub fn apply(&self, f: Flow) -> (r: Flow)
        ensures
            r == self.image(f),
    {
        match (*self, f) {
            (Reflect::Horizontal, Flow::Left) | (Reflect::Both, Flow::Left) => Flow::Right,
            (Reflect::Horizontal, Flow::Right) | (Reflect::Both, Flow::Right) => Flow::Left,
            (Reflect::Vertical, Flow::Up) | (Reflect::Both, Flow::Up) => Flow::Down,
            (Reflect::Vertical, Flow::Down) | (Reflect::Both, Flow::Down) => Flow::Up,
            _ => f,
        }
    }
}

} // verus!
