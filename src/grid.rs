//! Boards held as grids of characters, and the neighbour count on them.
use vstd::prelude::*;
use crate::model::{board_of, count_symbol, is_mine, mine_flag, mines_in_triple, neighbor_mines};

verus! {

/// The characters of `s`, in order.
pub(crate) fn chars_of(s: &str) -> (v: Vec<char>)
    ensures
        v@ == s@,
{
    let n = s.unicode_len();
    let mut v: Vec<char> = Vec::new();
    let mut j: usize = 0;
    while j < n
        invariant
            n == s@.len(),
            j <= n,
            v@ == s@.subrange(0, j as int),
        decreases n - j,
    {
        v.push(s.get_char(j));
        j = j + 1;
    }
    assert(v@ =~= s@);
    v
}

/// The rows of `rows` as a grid of characters.
pub(crate) fn grid_of(rows: &[&str]) -> (g: Vec<Vec<char>>)
    ensures
        g.deep_view() == board_of(rows@),
{
    let mut g: Vec<Vec<char>> = Vec::new();
    let mut i: usize = 0;
    while i < rows.len()
        invariant
            i <= rows@.len(),
            g@.len() == i,
            g.deep_view() == board_of(rows@.subrange(0, i as int)),
        decreases rows@.len() - i,
    {
        let row = chars_of(rows[i]);
        let ghost prev = g@;
        assert(row.deep_view() =~= rows@[i as int]@);
        g.push(row);
        assert forall|k: int| 0 <= k < i implies g.deep_view()[k] == rows@[k]@ by {
            assert(g@[k] == prev[k]);
            assert(prev[k].deep_view() == board_of(rows@.subrange(0, i as int))[k]);
        }
        assert(g.deep_view() =~= board_of(rows@.subrange(0, i + 1)));
        i = i + 1;
    }
    assert(rows@.subrange(0, rows@.len() as int) =~= rows@);
    g
}

/// Whether `(r, c)` holds a mine.
fn mine_at(grid: &Vec<Vec<char>>, r: usize, c: usize) -> (m: bool)
    ensures
        m == is_mine(grid.deep_view(), r as int, c as int),
{
    r < grid.len() && c < grid[r].len() && grid[r][c] == '*'
}

/// 1 where `(r, c)` holds a mine, else 0.
fn flag_at(grid: &Vec<Vec<char>>, r: usize, c: usize) -> (n: u8)
    ensures
        n as nat == mine_flag(grid.deep_view(), r as int, c as int),
{
    if mine_at(grid, r, c) {
        1
    } else {
        0
    }
}

/// Mines among `(r, c - 1)`, `(r, c)` and `(r, c + 1)`.
fn count_triple(grid: &Vec<Vec<char>>, r: usize, c: usize) -> (n: u8)
    requires
        c < usize::MAX,
    ensures
        n as nat == mines_in_triple(grid.deep_view(), r as int, c as int),
        n <= 3,
{
    let left: u8 = if c > 0 {
        flag_at(grid, r, c - 1)
    } else {
        0
    };
    left + flag_at(grid, r, c) + flag_at(grid, r, c + 1)
}

/// Mines among the neighbours of `(r, c)`, a cell of the grid.
pub(crate) fn count_neighbors(grid: &Vec<Vec<char>>, r: usize, c: usize) -> (n: u8)
    requires
        r < grid.len(),
        c < grid[r as int].len(),
    ensures
        n as nat == neighbor_mines(grid.deep_view(), r as int, c as int),
        n <= 8,
{
    let above: u8 = if r > 0 {
        count_triple(grid, r - 1, c)
    } else {
        0
    };
    let left: u8 = if c > 0 {
        flag_at(grid, r, c - 1)
    } else {
        0
    };
    above + left + flag_at(grid, r, c + 1) + count_triple(grid, r + 1, c)
}

/// How a count of neighbouring mines is written.
pub(crate) fn symbol(n: u8) -> (ch: char)
    requires
        n <= 8,
    ensures
        ch == count_symbol(n as nat),
{
    if n == 0 {
        ' '
    } else {
        (n + 48) as char
    }
}

/// Relies on `String::push`: appends one character at the end.
#[verifier::external_body]
pub(crate) fn push_char(s: &mut String, ch: char)
    ensures
        final(s)@ == old(s)@.push(ch),
{
    s.push(ch);
}

} // verus!
