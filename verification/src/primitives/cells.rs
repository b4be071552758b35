use vstd::prelude::*;
use crate::canvas::Canvas;
use crate::format::lemma_repeated_char;
use crate::primitives::square::Square;
use crate::term::Op;
use crate::traits::Draw;

verus! {

impl Square {
    /// What the drawing writes into the cell at a column and a row; `None`
    /// where it writes nothing: outside the square, and in the interior of a
    /// square that is not filled.
    pub open spec fn painted_cell(&self, col: int, row: int) -> Option<char> {
        let g = self.line_type.glyphs();
        let right = self.width - 1;
        let bottom = self.height - 1;
        let j = col - self.x;
        let i = row - self.y;
        if i < 0 || i > bottom || j < 0 || j > right {
            None
        } else if i == 0 {
            Some(
                if j == 0 {
                    g.top_left
                } else if j == right {
                    g.top_right
                } else {
                    g.horizontal
                },
            )
        } else if i == bottom {
            Some(
                if j == 0 {
                    g.bottom_left
                } else if j == right {
                    g.bottom_right
                } else {
                    g.horizontal
                },
            )
        } else if j == 0 || j == right {
            Some(g.vertical)
        } else if self.filled {
            Some(' ')
        } else {
            None
        }
    }

    /// What the rows from the top down to row `k` below it write into a cell.
    spec fn upper_cell(&self, k: int, col: int, row: int) -> Option<char> {
        if row - self.y <= k {
            self.painted_cell(col, row)
        } else {
            None
        }
    }

    /// The run of glyphs between two corners is as wide as the interior and
    /// holds the horizontal glyph throughout; the filling likewise holds
    /// spaces.
    proof fn lemma_runs(&self)
        requires
            self.width >= 2,
        ensures
            self.bar().len() == self.width - 2,
            forall|j: int|
                0 <= j < self.width - 2 ==> #[trigger] self.bar()[j]
                    == self.line_type.glyphs().horizontal,
            self.filling().len() == self.width - 2,
            forall|j: int| 0 <= j < self.width - 2 ==> #[trigger] self.filling()[j] == ' ',
    {
        lemma_repeated_char(self.line_type.glyphs().horizontal, (self.width - 2) as nat);
        lemma_repeated_char(' ', (self.width - 2) as nat);
    }

    /// A border row, written from the left corner on, changes exactly the
    /// cells of that row between the two corners.
    proof fn lemma_border_row(&self, c: Canvas, row: u16, left: char, right: char)
        requires
            self.width >= 2,
        ensures
            forall|col: int, r: int|
                #[trigger] c.run(self.border_row(row, left, right)).cell(col, r) == if r == row && 0 <= col - self.x <= self.width - 1 {
                    Some(
                        if col == self.x {
                            left
                        } else if col - self.x == self.width - 1 {
                            right
                        } else {
                            self.line_type.glyphs().horizontal
                        },
                    )
                } else {
                    c.cell(col, r)
                },
    {
        self.lemma_runs();
        let c0 = c.apply(Op::MoveTo(self.x, row));
        let c1 = c0.apply(Op::Print(seq![left]));
        let c2 = c1.apply(Op::Print(self.bar()));
        let c3 = c2.apply(Op::Print(seq![right]));
        c.lemma_run_four(
            Op::MoveTo(self.x, row),
            Op::Print(seq![left]),
            Op::Print(self.bar()),
            Op::Print(seq![right]),
        );
        assert forall|col: int, r: int|
            #[trigger] c3.cell(col, r) == if r == row && 0 <= col - self.x <= self.width - 1 {
                Some(
                    if col == self.x {
                        left
                    } else if col - self.x == self.width - 1 {
                        right
                    } else {
                        self.line_type.glyphs().horizontal
                    },
                )
            } else {
                c.cell(col, r)
            } by {
            c0.lemma_typed_cell(seq![left], col, r);
            c1.lemma_typed_cell(self.bar(), col, r);
            c2.lemma_typed_cell(seq![right], col, r);
            if r == row && 1 <= col - self.x < self.width - 1 {
                assert(self.bar()[col - self.x - 1] == self.line_type.glyphs().horizontal);
            }
        }
    }

    /// A row between the borders changes exactly the cells that the drawing
    /// writes in that row.
    proof fn lemma_side_row(&self, c: Canvas, i: int)
        requires
            self.rejection() is None,
            1 <= i <= self.height - 2,
        ensures
            forall|col: int, r: int|
                #[trigger] c.run(self.side_row(i)).cell(col, r) == if r == self.y + i
                    && self.painted_cell(col, r) is Some {
                    self.painted_cell(col, r)
                } else {
                    c.cell(col, r)
                },
    {
        self.lemma_runs();
        let g = self.line_type.glyphs();
        let row = (self.y + i) as u16;
        let c0 = c.apply(Op::MoveTo(self.x, row));
        let c1 = c0.apply(Op::Print(seq![g.vertical]));
        if self.filled {
            let c2 = c1.apply(Op::Print(self.filling()));
            let c3 = c2.apply(Op::Print(seq![g.vertical]));
            c.lemma_run_four(
                Op::MoveTo(self.x, row),
                Op::Print(seq![g.vertical]),
                Op::Print(self.filling()),
                Op::Print(seq![g.vertical]),
            );
            assert forall|col: int, r: int|
                #[trigger] c3.cell(col, r) == if r == self.y + i && self.painted_cell(col, r)
                    is Some {
                    self.painted_cell(col, r)
                } else {
                    c.cell(col, r)
                } by {
                c0.lemma_typed_cell(seq![g.vertical], col, r);
                c1.lemma_typed_cell(self.filling(), col, r);
                c2.lemma_typed_cell(seq![g.vertical], col, r);
                if r == row && 1 <= col - self.x < self.width - 1 {
                    assert(self.filling()[col - self.x - 1] == ' ');
                }
            }
        } else {
            let far = (self.x + self.width - 1) as u16;
            let c2 = c1.apply(Op::MoveTo(far, row));
            let c3 = c2.apply(Op::Print(seq![g.vertical]));
            c.lemma_run_four(
                Op::MoveTo(self.x, row),
                Op::Print(seq![g.vertical]),
                Op::MoveTo(far, row),
                Op::Print(seq![g.vertical]),
            );
            assert forall|col: int, r: int|
                #[trigger] c3.cell(col, r) == if r == self.y + i && self.painted_cell(col, r)
                    is Some {
                    self.painted_cell(col, r)
                } else {
                    c.cell(col, r)
                } by {
                c0.lemma_typed_cell(seq![g.vertical], col, r);
                c2.lemma_typed_cell(seq![g.vertical], col, r);
            }
        }
    }

    /// The top border and the `k` rows below it change exactly the cells
    /// that the drawing writes in those rows.
    proof fn lemma_upper_rows(&self, before: Canvas, k: int)
        requires
            self.rejection() is None,
            0 <= k <= self.height - 2,
        ensures
            forall|col: int, r: int|
                #[trigger] before.run(self.top_row() + self.side_rows(k)).cell(col, r)
                    == match self.upper_cell(k, col, r) {
                    Some(glyph) => Some(glyph),
                    None => before.cell(col, r),
                },
        decreases k,
    {
        let g = self.line_type.glyphs();
        if k == 0 {
            assert(self.top_row() + self.side_rows(0) =~= self.top_row());
            self.lemma_border_row(before, self.y, g.top_left, g.top_right);
        } else {
            self.lemma_upper_rows(before, k - 1);
            let above = self.top_row() + self.side_rows(k - 1);
            assert(self.top_row() + self.side_rows(k) =~= above + self.side_row(k));
            before.lemma_run_concat(above, self.side_row(k));
            self.lemma_side_row(before.run(above), k);
        }
    }

    /// The outline changes exactly the cells that the drawing writes.
    proof fn lemma_outline(&self, before: Canvas)
        requires
            self.rejection() is None,
        ensures
            forall|col: int, r: int|
                #[trigger] before.run(self.outline()).cell(col, r) == match self.painted_cell(
                    col,
                    r,
                ) {
                    Some(glyph) => Some(glyph),
                    None => before.cell(col, r),
                },
    {
        let g = self.line_type.glyphs();
        let upper = self.top_row() + self.side_rows(self.height - 2);
        self.lemma_upper_rows(before, self.height - 2);
        before.lemma_run_concat(upper, self.bottom_row());
        self.lemma_border_row(
            before.run(upper),
            (self.y + self.height - 1) as u16,
            g.bottom_left,
            g.bottom_right,
        );
    }

    /// Drawing a square that is at least two cells wide and high, over any
    /// canvas, leaves in every cell what [`Square::painted_cell`] says: the
    /// corner glyphs of the line style in the four corners, its horizontal
    /// glyph along the top and the bottom, its vertical glyph along the
    /// sides, a space in every interior cell of a filled square; and what
    /// was there before in every other cell, the interior of an unfilled
    /// square included.
    pub proof fn lemma_painted_cells(&self, before: Canvas)
        requires
            self.rejection() is None,
        ensures
            forall|col: int, row: int|
                #[trigger] before.run(self.painted()).cell(col, row) == match self.painted_cell(
                    col,
                    row,
                ) {
                    Some(glyph) => Some(glyph),
                    None => before.cell(col, row),
                },
    {
        match self.colors {
            Some(colors) => {
                let set = seq![Op::SetColors(colors)];
                let reset = seq![Op::SetColors(crate::primitives::square::reset_colors())];
                before.lemma_run_push(Seq::empty(), Op::SetColors(colors));
                assert(set =~= Seq::<Op>::empty().push(Op::SetColors(colors)));
                before.lemma_run_concat(set + self.outline(), reset);
                before.lemma_run_concat(set, self.outline());
                before.run(set + self.outline()).lemma_run_push(
                    Seq::empty(),
                    Op::SetColors(crate::primitives::square::reset_colors()),
                );
                assert(reset =~= Seq::<Op>::empty().push(
                    Op::SetColors(crate::primitives::square::reset_colors()),
                ));
                self.lemma_outline(before);
            },
            None => {
                self.lemma_outline(before);
            },
        }
    }
}

} // verus!
