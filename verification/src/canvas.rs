use vstd::prelude::*;
use crate::term::Op;

verus! {

/// A model of the terminal's cells: what has been written where, and the
/// place of the cursor. Every character is taken to fill one cell and to
/// move the cursor one column to the right; lines do not wrap.
pub ghost struct Canvas {
    /// The character in each cell that has been written, by column and row.
    pub cells: Map<(int, int), char>,
    /// The cursor's column and row.
    pub cursor: (int, int),
}

impl Canvas {
    /// What the cell at a column and a row holds; `None` where nothing was
    /// written.
    pub open spec fn cell(self, col: int, row: int) -> Option<char> {
        if self.cells.dom().contains((col, row)) {
            Some(self.cells[(col, row)])
        } else {
            None
        }
    }

    /// The cell is one of those that a text written at the cursor covers.
    pub open spec fn covers(self, len: int, col: int, row: int) -> bool {
        row == self.cursor.1 && self.cursor.0 <= col < self.cursor.0 + len
    }

    /// The canvas after a text was written at the cursor.
    pub open spec fn typed(self, text: Seq<char>) -> Canvas {
        Canvas {
            cells: Map::new(
                |p: (int, int)| self.cells.dom().contains(p) || self.covers(text.len() as int, p.0, p.1),
                |p: (int, int)|
                    if self.covers(text.len() as int, p.0, p.1) {
                        text[p.0 - self.cursor.0]
                    } else {
                        self.cells[p]
                    },
            ),
            cursor: (self.cursor.0 + text.len(), self.cursor.1),
        }
    }

    /// The canvas after one operation.
    pub open spec fn apply(self, op: Op) -> Canvas {
        match op {
            Op::MoveTo(x, y) => Canvas { cursor: (x as int, y as int), ..self },
            Op::Print(text) => self.typed(text),
            Op::Clear => Canvas { cells: Map::empty(), ..self },
            _ => self,
        }
    }

    /// The canvas after a sequence of operations.
    pub open spec fn run(self, ops: Seq<Op>) -> Canvas
        decreases ops.len(),
    {
        if ops.len() == 0 {
            self
        } else {
            self.run(ops.drop_last()).apply(ops.last())
        }
    }

    /// Writing a text changes the cells that it covers, and no others.
    pub proof fn lemma_typed_cell(self, text: Seq<char>, col: int, row: int)
        ensures
            self.typed(text).cell(col, row) == if self.covers(text.len() as int, col, row) {
                Some(text[col - self.cursor.0])
            } else {
                self.cell(col, row)
            },
    {
    }

    /// Running one more operation is applying it to what the others left.
    pub proof fn lemma_run_push(self, ops: Seq<Op>, op: Op)
        ensures
            self.run(ops.push(op)) == self.run(ops).apply(op),
    {
        assert(ops.push(op).drop_last() =~= ops);
    }

    /// Running two sequences in a row is running the second on what the
    /// first left.
    pub proof fn lemma_run_concat(self, first: Seq<Op>, second: Seq<Op>)
        ensures
            self.run(first + second) == self.run(first).run(second),
        decreases second.len(),
    {
        if second.len() == 0 {
            assert(first + second =~= first);
        } else {
            self.lemma_run_concat(first, second.drop_last());
            assert((first + second).drop_last() =~= first + second.drop_last());
        }
    }

    /// Four operations in a row.
    pub proof fn lemma_run_four(self, a: Op, b: Op, c: Op, d: Op)
        ensures
            self.run(seq![a, b, c, d]) == self.apply(a).apply(b).apply(c).apply(d),
    {
        let empty = Seq::<Op>::empty();
        self.lemma_run_push(empty, a);
        self.lemma_run_push(empty.push(a), b);
        self.lemma_run_push(empty.push(a).push(b), c);
        self.lemma_run_push(empty.push(a).push(b).push(c), d);
        assert(seq![a, b, c, d] =~= empty.push(a).push(b).push(c).push(d));
    }
}

} // verus!
