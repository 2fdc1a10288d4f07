//! Minesweeper board annotation.
//!
//! A board is a sequence of rows, each row a sequence of characters. A `*`
//! marks a mine; any other character is an empty cell. Annotating a board
//! keeps every mine and replaces every empty cell by the number of mines among
//! its (up to eight) neighbours, written as a digit, or by a blank when there
//! are none. Rows may differ in length: a neighbour exists only where its own
//! row is long enough to hold it.
pub mod model;
pub mod laws;
mod grid;
mod annotate;

pub use annotate::{annotate, annotate_use_map, remove_annotations, remove_annotations_in_row};
