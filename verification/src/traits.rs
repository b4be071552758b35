use vstd::prelude::*;
use crate::error::TuiError;
use crate::event::Event;
use crate::term::{ops, Op, TermOp};

verus! {

/// A drawable component.
pub trait Draw {
    /// Why this component cannot be drawn, if it cannot.
    spec fn rejection(&self) -> Option<TuiError>;

    /// The operations that draw this component, in order.
    spec fn painted(&self) -> Seq<Op>;

    /// Appends the operations that draw this component to the sink, or
    /// refuses and leaves the sink as it was.
    fn draw(&self, out: &mut Vec<TermOp>) -> (result: Result<(), TuiError>)
        ensures
            match self.rejection() {
                None => result is Ok && ops(final(out)@) == ops(old(out)@) + self.painted(),
                Some(e) => result == Err::<(), TuiError>(e) && final(out)@ == old(out)@,
            },
    ;
}

/// A component that reacts to input events.
pub trait HandleEvent: Sized {
    /// The component after the event, or why the event cannot be taken.
    spec fn reaction(&self, event: Event) -> Result<Self, TuiError>;

    /// Takes one event, or refuses it and leaves the component as it was.
    fn dispatch(&mut self, event: Event) -> (result: Result<(), TuiError>)
        ensures
            match old(self).reaction(event) {
                Ok(after) => result is Ok && *final(self) == after,
                Err(e) => result == Err::<(), TuiError>(e) && *final(self) == *old(self),
            },
    ;
}

} // verus!
