//! The mathematical model of boards and of their annotation.
use vstd::prelude::*;

verus! {

/// The character that marks a mine.
pub open spec fn mine() -> char {
    '*'
}

/// Whether `(r, c)` is a cell of `board` that holds a mine. Positions outside
/// the board, or past the end of their own row, hold none.
pub open spec fn is_mine(board: Seq<Seq<char>>, r: int, c: int) -> bool {
    0 <= r < board.len() && 0 <= c < board[r].len() && board[r][c] == mine()
}

/// 1 where `(r, c)` holds a mine, else 0.
pub open spec fn mine_flag(board: Seq<Seq<char>>, r: int, c: int) -> nat {
    if is_mine(board, r, c) {
        1
    } else {
        0
    }
}

/// Mines among the three cells `(r, c - 1)`, `(r, c)` and `(r, c + 1)`.
pub open spec fn mines_in_triple(board: Seq<Seq<char>>, r: int, c: int) -> nat {
    mine_flag(board, r, c - 1) + mine_flag(board, r, c) + mine_flag(board, r, c + 1)
}

/// Mines among the eight neighbours of `(r, c)`.
pub open spec fn neighbor_mines(board: Seq<Seq<char>>, r: int, c: int) -> nat {
    mines_in_triple(board, r - 1, c) + mine_flag(board, r, c - 1) + mine_flag(board, r, c + 1)
        + mines_in_triple(board, r + 1, c)
}

/// How a count of neighbouring mines is written: a blank for none, else
/// its decimal digit.
pub open spec fn count_symbol(n: nat) -> char {
    if n == 0 {
        ' '
    } else {
        (n + '0' as u32) as char
    }
}

/// The annotated content of cell `(r, c)`.
pub open spec fn annotated_cell(board: Seq<Seq<char>>, r: int, c: int) -> char {
    if board[r][c] == mine() {
        mine()
    } else {
        count_symbol(neighbor_mines(board, r, c))
    }
}

/// Row `r` of the annotated board.
pub open spec fn annotated_row(board: Seq<Seq<char>>, r: int) -> Seq<char> {
    Seq::new(board[r].len(), |c: int| annotated_cell(board, r, c))
}

/// The annotated board.
pub open spec fn annotated(board: Seq<Seq<char>>) -> Seq<Seq<char>> {
    Seq::new(board.len(), |r: int| annotated_row(board, r))
}

/// A cell with its annotation removed: a mine stays, anything else is blank.
pub open spec fn stripped_cell(ch: char) -> char {
    if ch == mine() {
        mine()
    } else {
        ' '
    }
}

/// A row with its annotations removed.
pub open spec fn stripped_row(row: Seq<char>) -> Seq<char> {
    row.map_values(|ch: char| stripped_cell(ch))
}

/// A board with its annotations removed.
pub open spec fn stripped(board: Seq<Seq<char>>) -> Seq<Seq<char>> {
    board.map_values(|row: Seq<char>| stripped_row(row))
}

/// The board that a slice of row strings stands for.
pub open spec fn board_of(rows: Seq<&str>) -> Seq<Seq<char>> {
    rows.map_values(|s: &str| s@)
}

/// The board that a sequence of owned row strings stands for.
pub open spec fn lines_of(rows: Seq<String>) -> Seq<Seq<char>> {
    rows.map_values(|s: String| s@)
}

} // verus!
