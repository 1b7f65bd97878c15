//! Reading program text into rows of decoded cells.
use vstd::prelude::*;
use crate::grid::cells_of;
use crate::syllable::{decode, Hangul};

verus! {

/// A line without the one carriage return that may end it.
pub open spec fn strip_cr(line: Seq<char>) -> Seq<char> {
    if line.len() > 0 && line.last() == '\r' {
        line.drop_last()
    } else {
        line
    }
}

/// The lines finished so far and the line being read, after reading `s`.
pub open spec fn split_state(s: Seq<char>) -> (Seq<Seq<char>>, Seq<char>)
    decreases s.len(),
{
    if s.len() == 0 {
        (seq![], seq![])
    } else {
        let (done, cur) = split_state(s.drop_last());
        if s.last() == '\n' {
            (done.push(strip_cr(cur)), seq![])
        } else {
            (done, cur.push(s.last()))
        }
    }
}

/// The lines of a text: it is cut at each line feed, and a carriage return
/// just before a line feed is dropped; a last line that no line feed ends
/// counts only when it is not empty.
pub open spec fn lines_of(s: Seq<char>) -> Seq<Seq<char>> {
    let (done, cur) = split_state(s);
    if cur.len() == 0 {
        done
    } else {
        done.push(cur)
    }
}

/// A line of characters decoded cell by cell.
pub open spec fn decode_line(line: Seq<char>) -> Seq<Hangul> {
    line.map_values(|c: char| decode(c))
}

/// The rows of cells that a program text stands for.
pub open spec fn rows_of(s: Seq<char>) -> Seq<Seq<Hangul>> {
    lines_of(s).map_values(|l: Seq<char>| decode_line(l))
}

/// Decodes a line, leaving out the characters from `end` on.
fn decode_chars(line: &Vec<char>, end: usize) -> (r: Vec<Hangul>)
    requires
        end <= line@.len(),
    ensures
        r@ == decode_line(line@.take(end as int)),
{
    let mut r: Vec<Hangul> = Vec::new();
    let mut i: usize = 0;
    while i < end
        invariant
            0 <= i <= end <= line@.len(),
            r@ == decode_line(line@.take(i as int)),
        decreases end - i,
    {
        r.push(Hangul::from_char(line[i]));
        proof {
            assert(line@.take(i as int + 1) =~= line@.take(i as int).push(line@[i as int]));
            assert(r@ =~= decode_line(line@.take(i as int + 1)));
        }
        i = i + 1;
    }
    r
}

/// Decodes a finished line, without the carriage return that may end it.
fn decode_finished(line: &Vec<char>) -> (r: Vec<Hangul>)
    ensures
        r@ == decode_line(strip_cr(line@)),
{
    let n = line.len();
    if n > 0 && line[n - 1] == '\r' {
        decode_chars(line, n - 1)
    } else {
        proof {
            assert(line@.take(n as int) =~= line@);
        }
        decode_chars(line, n)
    }
}

/// The rows of decoded cells of a program text, one for each of its lines.
pub fn parse_rows(src: &[char]) -> (r: Vec<Vec<Hangul>>)
    ensures
        cells_of(r@) == rows_of(src@),
{
    let mut rows: Vec<Vec<Hangul>> = Vec::new();
    let mut cur: Vec<char> = Vec::new();
    let mut i: usize = 0;
    while i < src.len()
        invariant
            0 <= i <= src@.len(),
            cells_of(rows@) == split_state(src@.take(i as int)).0.map_values(
                |l: Seq<char>| decode_line(l),
            ),
            cur@ == split_state(src@.take(i as int)).1,
        decreases src@.len() - i,
    {
        let c = src[i];
        let ghost before = src@.take(i as int);
        proof {
            assert(src@.take(i as int + 1).drop_last() =~= before);
        }
        if c == '\n' {
            let line = decode_finished(&cur);
            let ghost rows_before = rows@;
            rows.push(line);
            cur = Vec::new();
            proof {
                assert(cells_of(rows@) =~= cells_of(rows_before).push(line@));
                assert(cells_of(rows@) =~= split_state(src@.take(i as int + 1)).0.map_values(
                    |l: Seq<char>| decode_line(l),
                ));
            }
        } else {
            cur.push(c);
        }
        i = i + 1;
    }
    proof {
        assert(src@.take(src@.len() as int) =~= src@);
    }
    if cur.len() > 0 {
        let ghost rows_before = rows@;
        proof {
            assert(cur@.take(cur@.len() as int) =~= cur@);
        }
        let line = decode_chars(&cur, cur.len());
        rows.push(line);
        proof {
            assert(cells_of(rows@) =~= cells_of(rows_before).push(line@));
            assert(cells_of(rows@) =~= rows_of(src@));
        }
    } else {
        proof {
            assert(cells_of(rows@) =~= rows_of(src@));
        }
    }
    rows
}

} // verus!
