//! Facts about annotation that hold for every board.
use vstd::prelude::*;
use crate::model::{
    annotated, annotated_cell, count_symbol, is_mine, mine, neighbor_mines, stripped,
};

verus! {

/// Boards of the same shape whose mines stand at the same places.
pub open spec fn same_mines(a: Seq<Seq<char>>, b: Seq<Seq<char>>) -> bool {
    &&& a.len() == b.len()
    &&& forall|r: int| 0 <= r < a.len() ==> #[trigger] a[r].len() == b[r].len()
    &&& forall|r: int, c: int|
        0 <= r < a.len() && 0 <= c < a[r].len() ==> (#[trigger] a[r][c] == mine()) == (b[r][c]
            == mine())
}

/// A cell is never surrounded by more than eight mines.
pub proof fn lemma_neighbor_mines_at_most_eight(board: Seq<Seq<char>>, r: int, c: int)
    ensures
        neighbor_mines(board, r, c) <= 8,
{
}

/// The symbol of a count of at most eight is a blank or one of the digits
/// `1` to `8`; in particular it is never a mine.
pub proof fn lemma_count_symbol(n: nat)
    requires
        n <= 8,
    ensures
        n == 0 ==> count_symbol(n) == ' ',
        n > 0 ==> '1' <= count_symbol(n) <= '8',
        count_symbol(n) != mine(),
{
}

/// The annotated board has as many rows as the board, and each of its rows
/// is as long as the row it comes from.
pub proof fn lemma_shape_preserved(board: Seq<Seq<char>>)
    ensures
        annotated(board).len() == board.len(),
        forall|r: int| 0 <= r < board.len() ==> #[trigger] annotated(board)[r].len() == board[r].len(),
{
}

/// Every mine of the board is a mine of the annotated board, and every other
/// cell of the annotated board is a blank or a digit from `1` to `8`.
pub proof fn lemma_cells_of_annotation(board: Seq<Seq<char>>)
    ensures
        forall|r: int, c: int|
            0 <= r < board.len() && 0 <= c < board[r].len() ==> {
                let a = #[trigger] annotated(board)[r][c];
                &&& board[r][c] == mine() ==> a == mine()
                &&& board[r][c] != mine() ==> (a == ' ' || ('1' <= a <= '8'))
            },
{
    assert forall|r: int, c: int| 0 <= r < board.len() && 0 <= c < board[r].len() implies {
        let a = #[trigger] annotated(board)[r][c];
        &&& board[r][c] == mine() ==> a == mine()
        &&& board[r][c] != mine() ==> (a == ' ' || ('1' <= a <= '8'))
    } by {
        lemma_neighbor_mines_at_most_eight(board, r, c);
        lemma_count_symbol(neighbor_mines(board, r, c));
    }
}

/// A cell of the annotated board is a mine exactly where the board has one.
pub proof fn lemma_annotation_keeps_mines(board: Seq<Seq<char>>)
    ensures
        same_mines(annotated(board), board),
{
    lemma_cells_of_annotation(board);
}

/// Annotation depends on where the mines are and on nothing else: boards of
/// one shape with their mines at the same places annotate alike, whatever
/// their other cells hold.
pub proof fn lemma_determined_by_mines(a: Seq<Seq<char>>, b: Seq<Seq<char>>)
    requires
        same_mines(a, b),
    ensures
        annotated(a) == annotated(b),
{
    assert forall|r: int, c: int| #[trigger] is_mine(a, r, c) == is_mine(b, r, c) by {
        if 0 <= r < a.len() && 0 <= c < a[r].len() {
            assert((a[r][c] == mine()) == (b[r][c] == mine()));
        }
    }
    assert forall|r: int, c: int|
        0 <= r < a.len() && 0 <= c < a[r].len() implies #[trigger] annotated_cell(a, r, c)
        == annotated_cell(b, r, c) by {
        assert(neighbor_mines(a, r, c) == neighbor_mines(b, r, c));
        assert((a[r][c] == mine()) == (b[r][c] == mine()));
    }
    assert(annotated(a) =~~= annotated(b));
}

/// Removing the annotations of an annotated board and annotating it again
/// gives the annotated board back.
pub proof fn lemma_strip_round_trip(board: Seq<Seq<char>>)
    ensures
        annotated(stripped(annotated(board))) == annotated(board),
{
    let a = annotated(board);
    lemma_annotation_keeps_mines(board);
    assert(same_mines(stripped(a), board));
    lemma_determined_by_mines(stripped(a), board);
}

/// Annotating a board whose annotations were removed gives the annotation of
/// the board itself.
pub proof fn lemma_stripping_keeps_annotation(board: Seq<Seq<char>>)
    ensures
        annotated(stripped(board)) == annotated(board),
{
    assert(same_mines(stripped(board), board));
    lemma_determined_by_mines(stripped(board), board);
}

} // verus!
