//! The digital output line abstraction that the driver writes to.
//!
//! A line is modelled by the sequence of logical levels that have been
//! driven onto it, newest last. Each write either succeeds and appends
//! exactly one level, or fails and leaves the line's record unchanged.

use vstd::prelude::*;

verus! {

/// Logical level of a digital output line.
#[derive(Clone, Copy, PartialEq, Eq, Structural, Debug)]
pub enum State {
    /// Driven to the high level
    HIGH,
    /// Driven to the low level
    LOW,
}

/// A single digital output line that can be driven high or low,
/// possibly fallibly.
///
/// `history()` is the ghost record of every level successfully driven
/// onto the line, in order. A failed write drives nothing.
pub trait OutputLine {
    /// Error reported by a failed write; infallible lines never return it.
    type Error;

    /// All levels successfully written to this line so far, oldest
    /// first. Implementations outside the verified world may leave it
    /// at its default, the empty record.
    open spec fn history(&self) -> Seq<State> {
        Seq::empty()
    }

    /// Drive the line to the high level.
    fn set_high(&mut self) -> (r: Result<(), Self::Error>)
        ensures
            r is Ok ==> final(self).history() == old(self).history().push(State::HIGH),
            r is Err ==> final(self).history() == old(self).history(),
    ;

    /// Drive the line to the low level.
    fn set_low(&mut self) -> (r: Result<(), Self::Error>)
        ensures
            r is Ok ==> final(self).history() == old(self).history().push(State::LOW),
            r is Err ==> final(self).history() == old(self).history(),
    ;
}

/// Drive `line` to the level `state`.
pub(crate) fn digital_write<L: OutputLine>(state: &State, line: &mut L) -> (r: Result<
    (),
    L::Error,
>)
    ensures
        r is Ok ==> final(line).history() == old(line).history().push(*state),
        r is Err ==> final(line).history() == old(line).history(),
{
    match *state {
        State::HIGH => line.set_high(),
        State::LOW => line.set_low(),
    }
}

} // verus!
