use vstd::prelude::*;
use vstd::utf8::{decode_utf8, encode_utf8, encode_utf8_decode_utf8};
use crate::app::State;
use crate::error::TuiError;
use crate::format::{decimal, push_decimal};
use crate::primitives::square::{LineType, Square};
use crate::term::{emit, move_to, ops, print, Op, TermOp};
use crate::traits::Draw;

verus! {

/// The screen on which everything is drawn: the terminal's size as it was
/// last told.
#[derive(Debug, Clone, Copy, PartialEq, Eq, Structural)]
pub struct Screen {
    pub width: u16,
    pub height: u16,
}

/// What takes the terminal over: raw input, the alternate screen, cleared
/// and with the cursor home and hidden, and mouse reports.
pub open spec fn enter_ops() -> Seq<Op> {
    seq![
        Op::EnableRawMode,
        Op::EnterAlternateScreen,
        Op::Clear,
        Op::MoveTo(0, 0),
        Op::Hide,
        Op::EnableMouseCapture,
    ]
}

/// What gives the terminal back: the screen cleared, the main screen, no
/// mouse reports, the cursor shown, and cooked input.
pub open spec fn leave_ops() -> Seq<Op> {
    seq![
        Op::Clear,
        Op::LeaveAlternateScreen,
        Op::DisableMouseCapture,
        Op::Show,
        Op::DisableRawMode,
    ]
}

/// The label before a size: the axis, a colon and a space.
pub open spec fn size_label(axis: char) -> Seq<char> {
    seq![axis, ':', ' ']
}

/// A text cut to at most `max_width` bytes of its UTF-8 encoding.
pub open spec fn clipped(text: Seq<char>, max_width: int) -> Seq<char> {
    let bytes = encode_utf8(text);
    if bytes.len() > max_width {
        decode_utf8(bytes.subrange(0, max_width))
    } else {
        text
    }
}

impl Screen {
    /// Takes the terminal over and remembers its size.
    pub fn new(width: u16, height: u16, out: &mut Vec<TermOp>) -> (screen: Screen)
        ensures
            screen == (Screen { width, height }),
            ops(final(out)@) == ops(old(out)@) + enter_ops(),
    {
        let ghost before = ops(out@);
        emit(out, TermOp::EnableRawMode);
        emit(out, TermOp::EnterAlternateScreen);
        emit(out, TermOp::Clear);
        emit(out, TermOp::MoveTo(0, 0));
        emit(out, TermOp::Hide);
        emit(out, TermOp::EnableMouseCapture);
        assert(ops(out@) =~= before + enter_ops());
        Screen { width, height }
    }

    /// Gives the terminal back as it was before [`Screen::new`].
    pub fn leave(&self, out: &mut Vec<TermOp>)
        ensures
            ops(final(out)@) == ops(old(out)@) + leave_ops(),
    {
        let ghost before = ops(out@);
        emit(out, TermOp::Clear);
        emit(out, TermOp::LeaveAlternateScreen);
        emit(out, TermOp::DisableMouseCapture);
        emit(out, TermOp::Show);
        emit(out, TermOp::DisableRawMode);
        assert(ops(out@) =~= before + leave_ops());
    }

    /// Stores the terminal's size as it was found after a resize.
    pub fn handle_resize(&mut self, width: u16, height: u16)
        ensures
            *final(self) == (Screen { width, height }),
    {
        self.width = width;
        self.height = height;
    }

    /// Erases the whole terminal buffer.
    pub fn clear(&self, out: &mut Vec<TermOp>)
        ensures
            ops(final(out)@) == ops(old(out)@).push(Op::Clear),
    {
        emit(out, TermOp::Clear);
    }

    /// The size readout: width and height in decimal notation, each behind
    /// its label, in the two top rows and six columns from the right edge.
    pub open spec fn size_readout(&self) -> Seq<Op> {
        let column = (self.width - 6) as u16;
        seq![
            Op::MoveTo(column, 0),
            Op::Print(size_label('X') + decimal(self.width as nat)),
            Op::MoveTo(column, 1),
            Op::Print(size_label('Y') + decimal(self.height as nat)),
        ]
    }

    /// Draws the size readout. A screen under six columns wide has no room
    /// for it and is refused.
    pub fn draw_size(&self, out: &mut Vec<TermOp>) -> (result: Result<(), TuiError>)
        ensures
            self.width >= 6 ==> result is Ok && ops(final(out)@) == ops(old(out)@)
                + self.size_readout(),
            self.width < 6 ==> result == Err::<(), TuiError>(TuiError::ScreenTooNarrow)
                && final(out)@ == old(out)@,
    {
        if self.width < 6 {
            return Err(TuiError::ScreenTooNarrow);
        }
        let ghost before = ops(out@);
        let column = self.width - 6;
        proof {
            reveal_strlit("X: ");
            reveal_strlit("Y: ");
            assert("X: "@ =~= size_label('X'));
            assert("Y: "@ =~= size_label('Y'));
        }
        let mut columns = "X: ".to_owned();
        push_decimal(&mut columns, self.width);
        let mut rows = "Y: ".to_owned();
        push_decimal(&mut rows, self.height);
        move_to(out, column, 0);
        print(out, columns.as_str());
        move_to(out, column, 1);
        print(out, rows.as_str());
        assert(ops(out@) =~= before + self.size_readout());
        Ok(())
    }

    /// Draws a double-line box, as [`Square`] draws it and refuses it.
    pub fn draw_box(&self, x: u16, y: u16, width: u16, height: u16, out: &mut Vec<TermOp>) -> (result:
        Result<(), TuiError>)
        ensures
            match Square::double(x, y, width, height).rejection() {
                None => result is Ok && ops(final(out)@) == ops(old(out)@) + Square::double(
                    x,
                    y,
                    width,
                    height,
                ).painted(),
                Some(e) => result == Err::<(), TuiError>(e) && final(out)@ == old(out)@,
            },
    {
        let square = Square {
            line_type: LineType::Double,
            colors: None,
            filled: false,
            x,
            y,
            width,
            height,
        };
        square.draw(out)
    }

    /// Writes a text at a place, cut to `max_width` bytes where it is
    /// longer. A cut that would fall inside a character is refused.
    pub fn draw_string(string: &str, x: u16, y: u16, max_width: usize, out: &mut Vec<TermOp>) -> (result:
        Result<(), TuiError>)
        ensures
            Self::cuts_inside(string@, max_width as int) ==> result == Err::<(), TuiError>(
                TuiError::NotCharBoundary,
            ) && final(out)@ == old(out)@,
            !Self::cuts_inside(string@, max_width as int) ==> result is Ok && ops(final(out)@)
                == ops(old(out)@) + seq![
                Op::MoveTo(x, y),
                Op::Print(clipped(string@, max_width as int)),
            ],
    {
        let ghost before = ops(out@);
        if string.as_bytes().len() > max_width {
            if !string.is_char_boundary(max_width) {
                return Err(TuiError::NotCharBoundary);
            }
            let (head, _) = string.split_at(max_width);
            proof {
                encode_utf8_decode_utf8(head@);
                assert(head@ == clipped(string@, max_width as int));
            }
            move_to(out, x, y);
            print(out, head);
        } else {
            move_to(out, x, y);
            print(out, string);
        }
        assert(ops(out@) =~= before + seq![
            Op::MoveTo(x, y),
            Op::Print(clipped(string@, max_width as int)),
        ]);
        Ok(())
    }

    /// The text is longer than `max_width` bytes and that many bytes end
    /// inside a character.
    pub open spec fn cuts_inside(text: Seq<char>, max_width: int) -> bool {
        &&& encode_utf8(text).len() > max_width
        &&& !vstd::utf8::is_char_boundary(encode_utf8(text), max_width)
    }

    /// What a frame of the screen holds: the cleared terminal, the size
    /// readout, the decorative box, the todos, and a flush.
    pub open spec fn frame(&self, state: &State) -> Seq<Op> {
        seq![Op::Clear] + self.size_readout() + Square::double(5, 5, 2, 2).painted()
            + state.painted() + seq![Op::Flush]
    }

    /// Draws a frame: clears the terminal, draws the size readout and the
    /// decorative box, writes each todo in the row of its index from row 0
    /// down, and flushes. A screen under six columns wide is refused.
    pub fn draw(&self, state: &State, out: &mut Vec<TermOp>) -> (result: Result<(), TuiError>)
        ensures
            self.width >= 6 ==> result is Ok && ops(final(out)@) == ops(old(out)@) + self.frame(
                state,
            ),
            self.width < 6 ==> result == Err::<(), TuiError>(TuiError::ScreenTooNarrow)
                && final(out)@ == old(out)@,
    {
        if self.width < 6 {
            return Err(TuiError::ScreenTooNarrow);
        }
        let ghost before = ops(out@);
        self.clear(out);
        match self.draw_size(out) {
            Err(e) => {
                return Err(e);
            },
            Ok(()) => {},
        }
        match self.draw_box(5, 5, 2, 2, out) {
            Err(e) => {
                return Err(e);
            },
            Ok(()) => {},
        }
        match state.draw(out) {
            Err(e) => {
                return Err(e);
            },
            Ok(()) => {},
        }
        emit(out, TermOp::Flush);
        assert(ops(out@) =~= before + self.frame(state));
        Ok(())
    }
}

} // verus!
