pub mod count_square;
pub mod text;

pub use count_square::{CountSquare, CountSquareBuilder};
pub use text::Text;
