pub mod cells;
pub mod square;

pub use square::{LineType, Square, SquareBuilder};
