use vstd::prelude::*;
use crate::error::TuiError;
use crate::event::{Event, MouseEventKind};
use crate::format::{decimal, push_decimal};
use crate::primitives::square::Square;
use crate::term::{move_to, ops, print, Op, TermOp};
use crate::traits::{Draw, HandleEvent};

verus! {

/// A square that counts the mouse button releases it is told of, and shows
/// the count in its top left interior cell.
#[derive(Debug, Clone, Copy, PartialEq, Eq, Structural)]
pub struct CountSquare {
    pub square: Square,
    pub count: u16,
}

impl Default for CountSquare {
    fn default() -> (widget: Self)
        ensures
            widget.square == Square::blank(0, 0, 0, 0),
            widget.count == 0,
    {
        CountSquare { square: Square::default(), count: 0 }
    }
}

/// Builds a [`CountSquare`] around a square.
#[derive(Debug, Clone, Copy, PartialEq, Eq, Structural)]
pub struct CountSquareBuilder {
    pub square: Square,
}

impl CountSquareBuilder {
    /// Starts from the default square.
    pub fn new() -> (builder: CountSquareBuilder)
        ensures
            builder.square == Square::blank(0, 0, 0, 0),
    {
        CountSquareBuilder { square: Square::default() }
    }

    /// Takes the square to count in.
    pub fn with_square(self, square: Square) -> (builder: Self)
        ensures
            builder.square == square,
    {
        CountSquareBuilder { square }
    }

    /// The widget around the square, with nothing counted yet.
    pub fn build(self) -> (widget: CountSquare)
        ensures
            widget.square == self.square,
            widget.count == 0,
    {
        CountSquare { square: self.square, count: 0 }
    }
}

impl CountSquare {
    /// The widget after a run of events, each taken in turn; the first
    /// refusal ends the run.
    pub open spec fn reactions(&self, events: Seq<Event>) -> Result<CountSquare, TuiError>
        decreases events.len(),
    {
        if events.len() == 0 {
            Ok(*self)
        } else {
            match self.reactions(events.drop_last()) {
                Ok(widget) => widget.reaction(events.last()),
                Err(e) => Err(e),
            }
        }
    }

    /// Tells whether the widget can be drawn, as [`Draw::rejection`] says.
    pub fn validate(&self) -> (result: Result<(), TuiError>)
        ensures
            match self.rejection() {
                None => result is Ok,
                Some(e) => result == Err::<(), TuiError>(e),
            },
    {
        match self.square.validate() {
            Err(e) => Err(e),
            Ok(()) => {
                if self.square.x == u16::MAX {
                    Err(TuiError::SquareOutOfRange)
                } else {
                    Ok(())
                }
            },
        }
    }
}

impl Draw for CountSquare {
    open spec fn rejection(&self) -> Option<TuiError> {
        if self.square.rejection() is Some {
            self.square.rejection()
        } else if self.square.x + 1 > u16::MAX {
            Some(TuiError::SquareOutOfRange)
        } else {
            None
        }
    }

    open spec fn painted(&self) -> Seq<Op> {
        self.square.painted() + seq![
            Op::MoveTo((self.square.x + 1) as u16, (self.square.y + 1) as u16),
            Op::Print(decimal(self.count as nat)),
        ]
    }

    /// Draws the square, then the count in decimal notation one cell right
    /// of and one cell below the square's top left corner. Refuses what the
    /// square refuses, and a square whose interior starts beyond the last
    /// column.
    fn draw(&self, out: &mut Vec<TermOp>) -> (result: Result<(), TuiError>) {
        match self.validate() {
            Err(e) => {
                return Err(e);
            },
            Ok(()) => {},
        }
        let ghost before = ops(out@);
        match self.square.draw(out) {
            Err(e) => Err(e),
            Ok(()) => {
                let mut count = String::new();
                push_decimal(&mut count, self.count);
                move_to(out, self.square.x + 1, self.square.y + 1);
                print(out, count.as_str());
                assert(count@ =~= decimal(self.count as nat));
                assert(ops(out@) =~= before + self.painted());
                Ok(())
            },
        }
    }
}

impl HandleEvent for CountSquare {
    open spec fn reaction(&self, event: Event) -> Result<Self, TuiError> {
        if event.is_mouse_up() {
            if self.count < u16::MAX {
                Ok(CountSquare { count: (self.count + 1) as u16, ..*self })
            } else {
                Err(TuiError::CounterOverflow)
            }
        } else {
            Ok(*self)
        }
    }

    /// Counts the event if it is the release of a mouse button, and ignores
    /// every other event. A release that the counter has no room for is
    /// refused.
    fn dispatch(&mut self, event: Event) -> (result: Result<(), TuiError>) {
        match event {
            Event::Mouse(MouseEventKind::Up) => {
                if self.count < u16::MAX {
                    self.count = self.count + 1;
                    Ok(())
                } else {
                    Err(TuiError::CounterOverflow)
                }
            },
            _ => Ok(()),
        }
    }
}

/// A widget that was told of nothing but mouse button releases has counted
/// each of them: as many as the counter can hold leave it at its old count
/// plus their number.
pub proof fn lemma_releases_counted(widget: CountSquare, events: Seq<Event>)
    requires
        forall|i: int| 0 <= i < events.len() ==> (#[trigger] events[i]).is_mouse_up(),
        widget.count + events.len() <= u16::MAX,
    ensures
        widget.reactions(events) == Ok::<CountSquare, TuiError>(
            CountSquare { count: (widget.count + events.len()) as u16, ..widget },
        ),
    decreases events.len(),
{
    if events.len() > 0 {
        lemma_releases_counted(widget, events.drop_last());
    }
}

/// A fresh widget that was told of `K` mouse button releases, and of
/// nothing else, reads `K`.
pub proof fn lemma_fresh_counter_reads_releases(square: Square, events: Seq<Event>)
    requires
        forall|i: int| 0 <= i < events.len() ==> (#[trigger] events[i]).is_mouse_up(),
        events.len() <= u16::MAX,
    ensures
        (CountSquare { square, count: 0 }).reactions(events) == Ok::<CountSquare, TuiError>(
            CountSquare { square, count: events.len() as u16 },
        ),
{
    lemma_releases_counted(CountSquare { square, count: 0 }, events);
}

/// Events that are no mouse button release leave the widget as it was.
pub proof fn lemma_other_events_ignored(widget: CountSquare, events: Seq<Event>)
    requires
        forall|i: int| 0 <= i < events.len() ==> !(#[trigger] events[i]).is_mouse_up(),
    ensures
        widget.reactions(events) == Ok::<CountSquare, TuiError>(widget),
    decreases events.len(),
{
    if events.len() > 0 {
        lemma_other_events_ignored(widget, events.drop_last());
    }
}

} // verus!
