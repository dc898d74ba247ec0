//! Names of cells and ranges, as a spreadsheet writes them.

use vstd::prelude::*;
use crate::strs::{chars_of, string_from_chars};

verus! {

/// The `n`-th capital letter, counted from zero.
pub open spec fn letter(n: nat) -> char
    recommends
        n < 26,
{
    ('A' as u8 + n) as char
}

/// The decimal digit for `n`.
pub open spec fn digit(n: nat) -> char
    recommends
        n < 10,
{
    ('0' as u8 + n) as char
}

/// The letters that name the column `col`, counted from zero: `A` to `Z`,
/// then `AA` to `ZZ`, and so on.
pub open spec fn col_name(col: nat) -> Seq<char>
    decreases col,
{
    if col < 26 {
        seq![letter(col)]
    } else {
        col_name((col / 26 - 1) as nat).push(letter(col % 26))
    }
}

/// The decimal digits of `n`, without leading zeros.
pub open spec fn decimal_text(n: nat) -> Seq<char>
    decreases n,
{
    if n < 10 {
        seq![digit(n)]
    } else {
        decimal_text(n / 10).push(digit(n % 10))
    }
}

/// The name of the cell in row `row` and column `col`, both counted from
/// zero: the column's letters, then the row's number counted from one.
pub open spec fn cell_name(row: nat, col: nat) -> Seq<char> {
    col_name(col) + decimal_text(row + 1)
}

/// Appends the name of the column `col` to `out`.
pub fn push_col_name(col: u32, out: &mut Vec<char>)
    ensures
        final(out)@ == old(out)@ + col_name(col as nat),
    decreases col,
{
    if col >= 26 {
        push_col_name(col / 26 - 1, out);
    }
    let c = (65u8 + (col % 26) as u8) as char;
    assert(c == letter((col % 26) as nat));
    out.push(c);
    assert(out@ =~= old(out)@ + col_name(col as nat));
}

/// Appends the decimal digits of `n` to `out`.
pub fn push_decimal(n: u64, out: &mut Vec<char>)
    ensures
        final(out)@ == old(out)@ + decimal_text(n as nat),
    decreases n,
{
    if n >= 10 {
        push_decimal(n / 10, out);
    }
    let c = (48u8 + (n % 10) as u8) as char;
    assert(c == digit((n % 10) as nat));
    out.push(c);
    assert(out@ =~= old(out)@ + decimal_text(n as nat));
}

/// The name of a cell, such as `B3` for row 2 and column 1.
pub fn cell_ref(row: u32, col: u32) -> (r: String)
    ensures
        r@ == cell_name(row as nat, col as nat),
{
    let mut out: Vec<char> = Vec::new();
    push_col_name(col, &mut out);
    push_decimal(row as u64 + 1, &mut out);
    assert(out@ =~= cell_name(row as nat, col as nat));
    string_from_chars(&out)
}

/// What is gathered while a list of ranges is split: the ranges that are
/// complete, the range being read, and whether the reader is inside quotes.
pub ghost struct RangeSplit {
    pub done: Seq<Seq<char>>,
    pub current: Seq<char>,
    pub quoted: bool,
}

/// The split after one more character. A quote is kept and enters or leaves
/// a quoted stretch. A space outside quotes ends the range being read, if
/// there is one. Every other character belongs to the range being read.
pub open spec fn range_split_step(st: RangeSplit, c: char) -> RangeSplit {
    if c == '\'' {
        RangeSplit { current: st.current.push(c), quoted: !st.quoted, ..st }
    } else if c == ' ' && !st.quoted {
        if st.current.len() > 0 {
            RangeSplit { done: st.done.push(st.current), current: Seq::empty(), ..st }
        } else {
            st
        }
    } else {
        RangeSplit { current: st.current.push(c), ..st }
    }
}

/// The split of a whole text, read from its start.
pub open spec fn range_split(text: Seq<char>) -> RangeSplit
    decreases text.len(),
{
    if text.len() == 0 {
        RangeSplit { done: Seq::empty(), current: Seq::empty(), quoted: false }
    } else {
        range_split_step(range_split(text.drop_last()), text.last())
    }
}

/// The ranges that a list of ranges names: the stretches of the text between
/// spaces. A sheet name in single quotes may hold spaces.
pub open spec fn cellranges_of(text: Seq<char>) -> Seq<Seq<char>> {
    let st = range_split(text);
    if st.current.len() > 0 {
        st.done.push(st.current)
    } else {
        st.done
    }
}

/// Splits a list of ranges, as the print ranges of a sheet are written, into
/// its ranges.
pub fn parse_cellranges(text: &str) -> (r: Vec<String>)
    ensures
        r@.map_values(|s: String| s@) == cellranges_of(text@),
{
    let chars = chars_of(text);
    let n = chars.len();
    let mut done: Vec<String> = Vec::new();
    let mut current: Vec<char> = Vec::new();
    let mut quoted = false;
    let mut i: usize = 0;
    assert(chars@.take(0) =~= Seq::<char>::empty());
    assert(done@.map_values(|s: String| s@) =~= Seq::<Seq<char>>::empty());
    while i < n
        invariant
            chars@ == text@,
            n == chars@.len(),
            0 <= i <= n,
            range_split(chars@.take(i as int)) == (RangeSplit {
                done: done@.map_values(|s: String| s@),
                current: current@,
                quoted,
            }),
        decreases n - i,
    {
        let c = chars[i];
        let ghost before = done@.map_values(|s: String| s@);
        proof {
            assert(chars@.take(i + 1).drop_last() =~= chars@.take(i as int));
            assert(chars@.take(i + 1).last() == c);
        }
        if c == '\'' {
            current.push(c);
            quoted = !quoted;
        } else if c == ' ' && !quoted {
            if current.len() > 0 {
                let piece = string_from_chars(&current);
                done.push(piece);
                assert(done@.map_values(|s: String| s@) =~= before.push(current@));
                current = Vec::new();
            }
        } else {
            current.push(c);
        }
        i += 1;
    }
    assert(chars@.take(n as int) =~= chars@);
    if current.len() > 0 {
        let ghost before = done@.map_values(|s: String| s@);
        let piece = string_from_chars(&current);
        done.push(piece);
        assert(done@.map_values(|s: String| s@) =~= before.push(current@));
    }
    done
}

} // verus!
