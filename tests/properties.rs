use minesweeper::{annotate, annotate_use_map, remove_annotations, remove_annotations_in_row};

fn owned(rows: &[&str]) -> Vec<String> {
    rows.iter().map(|r| r.to_string()).collect()
}

fn borrowed(rows: &[String]) -> Vec<&str> {
    rows.iter().map(|r| &r[..]).collect()
}

#[test]
fn both_variants_agree() {
    let boards: Vec<Vec<&str>> = vec![
        vec![],
        vec![""],
        vec![" * ", "   ", "*  "],
        vec!["  *  ", " * * ", "  *  "],
        vec!["*", "", "  *", " "],
    ];
    for board in boards {
        assert_eq!(annotate(&board), annotate_use_map(&board));
    }
}

#[test]
fn shape_is_kept() {
    let board = ["*  ", "", " ", "   *"];
    let out = annotate(&board);
    assert_eq!(out.len(), board.len());
    for (o, b) in out.iter().zip(board.iter()) {
        assert_eq!(o.chars().count(), b.chars().count());
    }
}

#[test]
fn mines_are_kept() {
    let board = ["*x*", "y*z", "***"];
    assert_eq!(annotate(&board), owned(&["*3*", "4*4", "***"]));
}

#[test]
fn strip_and_annotate_again_round_trip() {
    let board = ["9*a", "*  ", "  *z"];
    let first = annotate(&board);
    let stripped = remove_annotations(&borrowed(&first));
    assert_eq!(annotate(&borrowed(&stripped)), first);
}

#[test]
fn existing_digits_do_not_matter() {
    let plain = [" * ", "   "];
    let noisy = ["7*1", "x3?"];
    assert_eq!(annotate(&plain), annotate(&noisy));
    assert_eq!(annotate(&plain), owned(&["1*1", "111"]));
}

#[test]
fn jagged_rows_do_not_panic() {
    let board = ["*  ", "", " ", "   *"];
    assert_eq!(annotate(&board), owned(&["*1 ", "", " ", "  1*"]));
    assert_eq!(annotate_use_map(&board), owned(&["*1 ", "", " ", "  1*"]));
}

#[test]
fn jagged_rows_use_each_neighbor_row_length() {
    let board = [" *", " "];
    assert_eq!(annotate(&board), owned(&["1*", "1"]));
}

#[test]
fn cells_count_characters_not_bytes() {
    let board = ["\u{e9}*", "\u{fc}\u{fc}"];
    assert_eq!(annotate(&board), owned(&["1*", "11"]));
}

#[test]
fn cross_pattern() {
    let board = ["  *  ", "  *  ", "*****", "  *  ", "  *  "];
    assert_eq!(
        annotate(&board),
        owned(&[" 2*2 ", "25*52", "*****", "25*52", " 2*2 "])
    );
}

#[test]
fn vertical_line_with_mines_at_edges() {
    let board = ["*", " ", " ", " ", "*"];
    assert_eq!(annotate(&board), owned(&["*", "1", " ", "1", "*"]));
}

#[test]
fn empty_board_and_empty_row() {
    let empty: [&str; 0] = [];
    assert_eq!(annotate(&empty), Vec::<String>::new());
    assert_eq!(annotate(&[""]), owned(&[""]));
    assert_eq!(annotate_use_map(&[""]), owned(&[""]));
}

#[test]
fn eight_mines_give_eight() {
    assert_eq!(annotate(&["***", "* *", "***"]), owned(&["***", "*8*", "***"]));
}

#[test]
fn removing_annotations() {
    assert_eq!(remove_annotations_in_row("1*2x*"), " *  *");
    assert_eq!(remove_annotations_in_row(""), "");
    assert_eq!(
        remove_annotations(&["111", "1*1", "111"]),
        owned(&["   ", " * ", "   "])
    );
}
