use vstd::prelude::*;

verus! {

/// A terminal colour.
#[derive(Debug, Clone, Copy, PartialEq, Eq, Structural)]
pub enum Color {
    /// The terminal's default colour.
    Reset,
    /// A colour given by its red, green and blue parts.
    Rgb { r: u8, g: u8, b: u8 },
}

/// A foreground and a background colour; `None` leaves that one as it is.
#[derive(Debug, Clone, Copy, PartialEq, Eq, Structural)]
pub struct Colors {
    pub foreground: Option<Color>,
    pub background: Option<Color>,
}

/// One operation on the terminal, in the order in which it is to be performed.
#[derive(Debug, PartialEq, Eq)]
pub enum TermOp {
    /// Deliver keystrokes unprocessed.
    EnableRawMode,
    /// Back to line-buffered, echoing input.
    DisableRawMode,
    /// Switch to the alternate screen buffer.
    EnterAlternateScreen,
    /// Back to the main screen buffer.
    LeaveAlternateScreen,
    /// Hide the cursor.
    Hide,
    /// Show the cursor.
    Show,
    /// Report mouse events.
    EnableMouseCapture,
    /// Stop reporting mouse events.
    DisableMouseCapture,
    /// Erase the whole terminal buffer.
    Clear,
    /// Move the cursor to a column and a row, both counted from zero.
    MoveTo(u16, u16),
    /// Write a text at the cursor.
    Print(String),
    /// Set the colours for what is printed from here on.
    SetColors(Colors),
    /// Flush the output stream.
    Flush,
}

/// What a [`TermOp`] is, with its text as a sequence of characters.
pub ghost enum Op {
    EnableRawMode,
    DisableRawMode,
    EnterAlternateScreen,
    LeaveAlternateScreen,
    Hide,
    Show,
    EnableMouseCapture,
    DisableMouseCapture,
    Clear,
    MoveTo(u16, u16),
    Print(Seq<char>),
    SetColors(Colors),
    Flush,
}

impl View for TermOp {
    type V = Op;

    open spec fn view(&self) -> Op {
        match *self {
            TermOp::EnableRawMode => Op::EnableRawMode,
            TermOp::DisableRawMode => Op::DisableRawMode,
            TermOp::EnterAlternateScreen => Op::EnterAlternateScreen,
            TermOp::LeaveAlternateScreen => Op::LeaveAlternateScreen,
            TermOp::Hide => Op::Hide,
            TermOp::Show => Op::Show,
            TermOp::EnableMouseCapture => Op::EnableMouseCapture,
            TermOp::DisableMouseCapture => Op::DisableMouseCapture,
            TermOp::Clear => Op::Clear,
            TermOp::MoveTo(x, y) => Op::MoveTo(x, y),
            TermOp::Print(s) => Op::Print(s@),
            TermOp::SetColors(c) => Op::SetColors(c),
            TermOp::Flush => Op::Flush,
        }
    }
}

/// The operations that a sink holds, each by its view.
pub open spec fn ops(sink: Seq<TermOp>) -> Seq<Op> {
    sink.map_values(|op: TermOp| op@)
}

/// All the text that a sequence of operations writes, in order.
pub open spec fn printed(ops: Seq<Op>) -> Seq<char>
    decreases ops.len(),
{
    if ops.len() == 0 {
        Seq::empty()
    } else {
        match ops.last() {
            Op::Print(text) => printed(ops.drop_last()) + text,
            _ => printed(ops.drop_last()),
        }
    }
}

/// Appending one operation to a sink appends its view to what the sink holds.
pub proof fn lemma_ops_push(sink: Seq<TermOp>, op: TermOp)
    ensures
        ops(sink.push(op)) == ops(sink).push(op@),
{
    assert(ops(sink.push(op)) =~= ops(sink).push(op@));
}

/// Appends one operation to the sink.
pub fn emit(out: &mut Vec<TermOp>, op: TermOp)
    ensures
        ops(final(out)@) == ops(old(out)@).push(op@),
{
    proof {
        lemma_ops_push(out@, op);
    }
    out.push(op);
}

/// Appends a cursor move to the sink.
pub fn move_to(out: &mut Vec<TermOp>, x: u16, y: u16)
    ensures
        ops(final(out)@) == ops(old(out)@).push(Op::MoveTo(x, y)),
{
    proof {
        lemma_ops_push(out@, TermOp::MoveTo(x, y));
    }
    out.push(TermOp::MoveTo(x, y));
}

/// Appends a copy of the text to the sink, to be written at the cursor.
pub fn print(out: &mut Vec<TermOp>, text: &str)
    ensures
        ops(final(out)@) == ops(old(out)@).push(Op::Print(text@)),
{
    let owned = text.to_owned();
    proof {
        lemma_ops_push(out@, TermOp::Print(owned));
    }
    out.push(TermOp::Print(owned));
}

} // verus!
