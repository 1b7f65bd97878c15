//! A compiler for Aheui, a two-dimensional esoteric language written in
//! Hangul syllables, down to a control-flow graph of basic blocks, together
//! with the storage model that the compiled program runs against.

pub mod syllable;
pub mod flow;
pub mod grid;
pub mod ir;
pub mod compile;
pub mod storage;
pub mod text;
pub mod source;
