use vstd::prelude::*;
use crate::constants::{chars, double_glyphs, single_glyphs, Glyphs, LineChars};
use crate::error::TuiError;
use crate::format::{repeat, repeated};
use crate::term::{emit, move_to, ops, print, Color, Colors, Op, TermOp};
use crate::traits::Draw;

verus! {

/// The style of a square's outline.
#[derive(Debug, Clone, Copy, PartialEq, Eq, Structural)]
pub enum LineType {
    Double,
    Single,
}

impl Default for LineType {
    fn default() -> (line_type: Self)
        ensures
            line_type == LineType::Single,
    {
        LineType::Single
    }
}

impl LineType {
    /// The glyphs of this line style.
    pub open spec fn glyphs(&self) -> Glyphs {
        match *self {
            LineType::Double => double_glyphs(),
            LineType::Single => single_glyphs(),
        }
    }

    /// Looks this line style up in the glyph table.
    pub fn chars(&self) -> (line: LineChars<'static>)
        ensures
            line.wf(),
            line@ == self.glyphs(),
    {
        let table = chars();
        match self {
            LineType::Double => table.lines.double,
            LineType::Single => table.lines.single,
        }
    }
}

/// A square with a position and size.
#[derive(Debug, Clone, Copy, PartialEq, Eq, Structural)]
pub struct Square {
    pub line_type: LineType,
    pub colors: Option<Colors>,
    pub filled: bool,
    pub x: u16,
    pub y: u16,
    pub width: u16,
    pub height: u16,
}

impl Default for Square {
    fn default() -> (square: Self)
        ensures
            square == Square::blank(0, 0, 0, 0),
    {
        Square {
            line_type: LineType::Single,
            colors: None,
            filled: false,
            x: 0,
            y: 0,
            width: 0,
            height: 0,
        }
    }
}

/// The colours that end a coloured drawing.
pub open spec fn reset_colors() -> Colors {
    Colors { foreground: Some(Color::Reset), background: Some(Color::Reset) }
}

impl Square {
    /// The single-line, unfilled and uncoloured square at a place and of a size.
    pub open spec fn blank(x: u16, y: u16, width: u16, height: u16) -> Square {
        Square { line_type: LineType::Single, colors: None, filled: false, x, y, width, height }
    }

    /// The double-line, unfilled and uncoloured square at a place and of a size.
    pub open spec fn double(x: u16, y: u16, width: u16, height: u16) -> Square {
        Square { line_type: LineType::Double, colors: None, filled: false, x, y, width, height }
    }

    /// The double-line square of five by five cells at the origin.
    pub fn new() -> (square: Square)
        ensures
            square == Square::double(0, 0, 5, 5),
    {
        Square {
            line_type: LineType::Double,
            colors: None,
            filled: false,
            x: 0,
            y: 0,
            width: 5,
            height: 5,
        }
    }

    /// The run of horizontal glyphs between two corners.
    pub open spec fn bar(&self) -> Seq<char> {
        repeated(seq![self.line_type.glyphs().horizontal], (self.width - 2) as nat)
    }

    /// The run of spaces that fills one row of the interior.
    pub open spec fn filling(&self) -> Seq<char> {
        repeated(seq![' '], (self.width - 2) as nat)
    }

    /// A border in a row: a corner at column `x`, the bar, and a corner.
    pub open spec fn border_row(&self, row: u16, left: char, right: char) -> Seq<Op> {
        seq![
            Op::MoveTo(self.x, row),
            Op::Print(seq![left]),
            Op::Print(self.bar()),
            Op::Print(seq![right]),
        ]
    }

    /// The top border, in row `y`.
    pub open spec fn top_row(&self) -> Seq<Op> {
        let g = self.line_type.glyphs();
        self.border_row(self.y, g.top_left, g.top_right)
    }

    /// The row `i` below the top: the left side, then either the filling
    /// and the right side, or a jump over the interior to the right side.
    pub open spec fn side_row(&self, i: int) -> Seq<Op> {
        let g = self.line_type.glyphs();
        let row = (self.y + i) as u16;
        if self.filled {
            seq![
                Op::MoveTo(self.x, row),
                Op::Print(seq![g.vertical]),
                Op::Print(self.filling()),
                Op::Print(seq![g.vertical]),
            ]
        } else {
            seq![
                Op::MoveTo(self.x, row),
                Op::Print(seq![g.vertical]),
                Op::MoveTo((self.x + self.width - 1) as u16, row),
                Op::Print(seq![g.vertical]),
            ]
        }
    }

    /// The rows `1` to `n` below the top, one after the other.
    pub open spec fn side_rows(&self, n: int) -> Seq<Op>
        decreases n,
    {
        if n <= 0 {
            Seq::empty()
        } else {
            self.side_rows(n - 1) + self.side_row(n)
        }
    }

    /// The bottom border, in row `y + height - 1`.
    pub open spec fn bottom_row(&self) -> Seq<Op> {
        let g = self.line_type.glyphs();
        self.border_row((self.y + self.height - 1) as u16, g.bottom_left, g.bottom_right)
    }

    /// The whole outline, row by row from the top.
    pub open spec fn outline(&self) -> Seq<Op> {
        self.top_row() + self.side_rows(self.height - 2) + self.bottom_row()
    }

    /// The far edge can be addressed: the last row always, the last column
    /// where the drawing jumps to it.
    pub open spec fn in_range(&self) -> bool {
        &&& self.y + self.height - 1 <= u16::MAX
        &&& (self.filled || self.x + self.width - 1 <= u16::MAX)
    }

    /// Tells whether the square can be drawn, as [`Draw::rejection`] says.
    pub fn validate(&self) -> (result: Result<(), TuiError>)
        ensures
            match self.rejection() {
                None => result is Ok,
                Some(e) => result == Err::<(), TuiError>(e),
            },
    {
        if self.width < 2 || self.height < 2 {
            Err(TuiError::SquareTooSmall)
        } else if self.y > u16::MAX - (self.height - 1) || (!self.filled && self.x > u16::MAX - (
        self.width - 1)) {
            Err(TuiError::SquareOutOfRange)
        } else {
            Ok(())
        }
    }
}

impl Draw for Square {
    open spec fn rejection(&self) -> Option<TuiError> {
        if self.width < 2 || self.height < 2 {
            Some(TuiError::SquareTooSmall)
        } else if !self.in_range() {
            Some(TuiError::SquareOutOfRange)
        } else {
            None
        }
    }

    open spec fn painted(&self) -> Seq<Op> {
        match self.colors {
            Some(colors) => seq![Op::SetColors(colors)] + self.outline() + seq![
                Op::SetColors(reset_colors()),
            ],
            None => self.outline(),
        }
    }

    /// Draws the outline row by row, between a colour setting and a colour
    /// reset where the square has colours. A square under two cells wide or
    /// high, or one whose far edge cannot be addressed, is refused.
    fn draw(&self, out: &mut Vec<TermOp>) -> (result: Result<(), TuiError>) {
        match self.validate() {
            Err(e) => {
                return Err(e);
            },
            Ok(()) => {},
        }
        let ghost before = ops(out@);
        let line = self.line_type.chars();
        let bar = repeat(line.horizontal, (self.width - 2) as usize);
        let filling = if self.filled {
            repeat(" ", (self.width - 2) as usize)
        } else {
            String::new()
        };
        proof {
            reveal_strlit(" ");
            assert(" "@ =~= seq![' ']);
            assert(line.horizontal@ =~= seq![self.line_type.glyphs().horizontal]);
            assert(line.vertical@ =~= seq![self.line_type.glyphs().vertical]);
            assert(line.top_left@ =~= seq![self.line_type.glyphs().top_left]);
            assert(line.top_right@ =~= seq![self.line_type.glyphs().top_right]);
            assert(line.bottom_left@ =~= seq![self.line_type.glyphs().bottom_left]);
            assert(line.bottom_right@ =~= seq![self.line_type.glyphs().bottom_right]);
        }

        if let Some(colors) = self.colors {
            emit(out, TermOp::SetColors(colors));
        }
        let ghost start = ops(out@);

        move_to(out, self.x, self.y);
        print(out, line.top_left);
        print(out, bar.as_str());
        print(out, line.top_right);
        assert(ops(out@) =~= start + self.top_row() + self.side_rows(0));

        let mut i: u16 = 1;
        while i < self.height - 1
            invariant
                1 <= i <= self.height - 1,
                self.width >= 2,
                self.in_range(),
                line.vertical@ == seq![self.line_type.glyphs().vertical],
                self.filled ==> filling@ == self.filling(),
                ops(out@) == start + self.top_row() + self.side_rows(i - 1),
            decreases self.height - 1 - i,
        {
            move_to(out, self.x, self.y + i);
            print(out, line.vertical);
            if self.filled {
                print(out, filling.as_str());
                print(out, line.vertical);
            } else {
                move_to(out, self.x + (self.width - 1), self.y + i);
                print(out, line.vertical);
            }
            assert(ops(out@) =~= start + self.top_row() + self.side_rows(i as int));
            i = i + 1;
        }

        move_to(out, self.x, self.y + (self.height - 1));
        print(out, line.bottom_left);
        print(out, bar.as_str());
        print(out, line.bottom_right);
        assert(ops(out@) =~= start + self.outline());

        if self.colors.is_some() {
            emit(out, TermOp::SetColors(Colors {
                foreground: Some(Color::Reset),
                background: Some(Color::Reset),
            }));
        }
        assert(ops(out@) =~= before + self.painted());
        Ok(())
    }
}

/// Builds a [`Square`] step by step.
#[derive(Debug, Clone, Copy, PartialEq, Eq, Structural)]
pub struct SquareBuilder {
    pub square: Square,
}

impl SquareBuilder {
    /// Starts from the single-line, unfilled and uncoloured square at a
    /// place and of a size.
    pub fn new(x: u16, y: u16, width: u16, height: u16) -> (builder: SquareBuilder)
        ensures
            builder.square == Square::blank(x, y, width, height),
    {
        SquareBuilder {
            square: Square {
                line_type: LineType::Single,
                colors: None,
                filled: false,
                x,
                y,
                width,
                height,
            },
        }
    }

    /// Gives the square colours.
    pub fn with_colors(self, colors: Colors) -> (builder: Self)
        ensures
            builder.square == (Square { colors: Some(colors), ..self.square }),
    {
        let mut builder = self;
        builder.square.colors = Some(colors);
        builder
    }

    /// Says whether the interior is filled with spaces.
    pub fn is_filled(self, filled: bool) -> (builder: Self)
        ensures
            builder.square == (Square { filled, ..self.square }),
    {
        let mut builder = self;
        builder.square.filled = filled;
        builder
    }

    /// Gives the outline a line style.
    pub fn with_line_type(self, line_type: LineType) -> (builder: Self)
        ensures
            builder.square == (Square { line_type, ..self.square }),
    {
        let mut builder = self;
        builder.square.line_type = line_type;
        builder
    }

    /// The square as built so far.
    pub fn build(self) -> (square: Square)
        ensures
            square == self.square,
    {
        self.square
    }
}

} // verus!
