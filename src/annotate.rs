//! Annotating a board, and removing annotations from one.
use vstd::prelude::*;
use crate::grid::{chars_of, count_neighbors, grid_of, push_char, symbol};
use crate::model::{
    annotated, annotated_cell, annotated_row, board_of, lines_of, stripped, stripped_row,
};

verus! {

/// Annotates `minefield`: every mine is kept and every other cell becomes the
/// number of mines around it, or a blank where there are none.
pub fn annotate(minefield: &[&str]) -> (out: Vec<String>)
    ensures
        lines_of(out@) == annotated(board_of(minefield@)),
{
    let grid = grid_of(minefield);
    let ghost board = grid.deep_view();
    let mut out: Vec<String> = Vec::new();
    let mut r: usize = 0;
    while r < grid.len()
        invariant
            board == grid.deep_view(),
            board == board_of(minefield@),
            r <= grid.len(),
            out@.len() == r,
            lines_of(out@) == annotated(board).subrange(0, r as int),
        decreases grid.len() - r,
    {
        let mut s = String::new();
        let mut c: usize = 0;
        while c < grid[r].len()
            invariant
                board == grid.deep_view(),
                r < grid.len(),
                c <= grid[r as int].len(),
                s@ == annotated_row(board, r as int).subrange(0, c as int),
            decreases grid[r as int].len() - c,
        {
            if grid[r][c] == '*' {
                push_char(&mut s, '*');
            } else {
                push_char(&mut s, symbol(count_neighbors(&grid, r, c)));
            }
            assert(s@ =~= annotated_row(board, r as int).subrange(0, c + 1));
            c = c + 1;
        }
        assert(s@ =~= annotated_row(board, r as int));
        let ghost prev = lines_of(out@);
        out.push(s);
        assert forall|k: int| 0 <= k < r implies lines_of(out@)[k] == prev[k] by {
            assert(prev[k] == annotated(board).subrange(0, r as int)[k]);
        }
        assert(lines_of(out@) =~= annotated(board).subrange(0, r + 1));
        r = r + 1;
    }
    assert(lines_of(out@) =~= annotated(board));
    out
}

/// The annotated content of cell `(r, c)` of `grid`.
fn cell_of(grid: &Vec<Vec<char>>, r: usize, c: usize) -> (ch: char)
    requires
        r < grid.len(),
        c < grid[r as int].len(),
    ensures
        ch == annotated_cell(grid.deep_view(), r as int, c as int),
{
    if grid[r][c] == '*' {
        '*'
    } else {
        symbol(count_neighbors(grid, r, c))
    }
}

/// Row `r` of the annotated `grid`.
fn row_of(grid: &Vec<Vec<char>>, r: usize) -> (s: String)
    requires
        r < grid.len(),
    ensures
        s@ == annotated_row(grid.deep_view(), r as int),
{
    let mut s = String::new();
    let mut c: usize = 0;
    while c < grid[r].len()
        invariant
            r < grid.len(),
            c <= grid[r as int].len(),
            s@ == annotated_row(grid.deep_view(), r as int).subrange(0, c as int),
        decreases grid[r as int].len() - c,
    {
        push_char(&mut s, cell_of(grid, r, c));
        assert(s@ =~= annotated_row(grid.deep_view(), r as int).subrange(0, c + 1));
        c = c + 1;
    }
    assert(s@ =~= annotated_row(grid.deep_view(), r as int));
    s
}

/// Annotates `minefield` row by row, each row cell by cell; the result is the
/// one that [`annotate`] gives.
pub fn annotate_use_map(minefield: &[&str]) -> (out: Vec<String>)
    ensures
        lines_of(out@) == annotated(board_of(minefield@)),
{
    let grid = grid_of(minefield);
    let mut out: Vec<String> = Vec::new();
    let mut r: usize = 0;
    while r < grid.len()
        invariant
            grid.deep_view() == board_of(minefield@),
            r <= grid.len(),
            out@.len() == r,
            lines_of(out@) == annotated(grid.deep_view()).subrange(0, r as int),
        decreases grid.len() - r,
    {
        let ghost prev = lines_of(out@);
        out.push(row_of(&grid, r));
        assert forall|k: int| 0 <= k < r implies lines_of(out@)[k] == prev[k] by {
            assert(prev[k] == annotated(grid.deep_view()).subrange(0, r as int)[k]);
        }
        assert(lines_of(out@) =~= annotated(grid.deep_view()).subrange(0, r + 1));
        r = r + 1;
    }
    assert(lines_of(out@) =~= annotated(grid.deep_view()));
    out
}

/// `row` with its annotations removed: mines stay, every other cell is blank.
pub fn remove_annotations_in_row(row: &str) -> (s: String)
    ensures
        s@ == stripped_row(row@),
{
    let cells = chars_of(row);
    let mut s = String::new();
    let mut c: usize = 0;
    while c < cells.len()
        invariant
            cells@ == row@,
            c <= cells.len(),
            s@ == stripped_row(row@).subrange(0, c as int),
        decreases cells.len() - c,
    {
        if cells[c] == '*' {
            push_char(&mut s, '*');
        } else {
            push_char(&mut s, ' ');
        }
        assert(s@ =~= stripped_row(row@).subrange(0, c + 1));
        c = c + 1;
    }
    assert(s@ =~= stripped_row(row@));
    s
}

/// `board` with its annotations removed, row by row.
pub fn remove_annotations(board: &[&str]) -> (out: Vec<String>)
    ensures
        lines_of(out@) == stripped(board_of(board@)),
{
    let mut out: Vec<String> = Vec::new();
    let mut r: usize = 0;
    while r < board.len()
        invariant
            r <= board@.len(),
            out@.len() == r,
            lines_of(out@) == stripped(board_of(board@)).subrange(0, r as int),
        decreases board@.len() - r,
    {
        let ghost prev = lines_of(out@);
        out.push(remove_annotations_in_row(board[r]));
        assert forall|k: int| 0 <= k < r implies lines_of(out@)[k] == prev[k] by {
            assert(prev[k] == stripped(board_of(board@)).subrange(0, r as int)[k]);
        }
        assert(lines_of(out@) =~= stripped(board_of(board@)).subrange(0, r + 1));
        r = r + 1;
    }
    assert(lines_of(out@) =~= stripped(board_of(board@)));
    out
}

} // verus!
