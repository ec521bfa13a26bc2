//! An in-memory output line for exercising the driver off-target.
//!
//! A [`MockLine`] records every level driven onto it and can be told to
//! refuse one write attempt, which makes it possible to observe what
//! the driver wrote and how it behaves when a line write fails.

use crate::line::{OutputLine, State};
use vstd::prelude::*;

verus! {

/// Error returned by a [`MockLine`] told to fail.
#[derive(Clone, Copy, PartialEq, Eq, Structural, Debug)]
pub struct MockError;

/// A digital output line that records the levels written to it.
///
/// Write attempts are counted, successful or not; the line fails the
/// single attempt whose 0-based number it was created with, if any,
/// and succeeds on every other.
pub struct MockLine {
    log: Vec<State>,
    attempts: usize,
    fail_on: Option<usize>,
}

impl MockLine {
    /// A fresh line with no writes recorded, whose writes all succeed.
    pub fn new() -> (m: MockLine)
        ensures
            m.history() == Seq::<State>::empty(),
    {
        MockLine { log: Vec::new(), attempts: 0, fail_on: None }
    }

    /// A fresh line with no writes recorded that fails the write
    /// attempt number `attempt` (0-based) and accepts every other.
    pub fn failing_on(attempt: usize) -> (m: MockLine)
        ensures
            m.history() == Seq::<State>::empty(),
    {
        MockLine { log: Vec::new(), attempts: 0, fail_on: Some(attempt) }
    }

    /// The levels successfully written to this line, oldest first.
    pub fn writes(&self) -> (v: &Vec<State>)
        ensures
            v@ == self.history(),
    {
        &self.log
    }

    /// Record one write of `state`, or refuse it if this is the attempt
    /// the line was told to fail.
    fn write(&mut self, state: State) -> (r: Result<(), MockError>)
        ensures
            r is Ok ==> final(self).history() == old(self).history().push(state),
            r is Err ==> final(self).history() == old(self).history(),
    {
        let refused = match self.fail_on {
            Some(attempt) => self.attempts == attempt,
            None => false,
        };
        if self.attempts < usize::MAX {
            self.attempts = self.attempts + 1;
        }
        if refused {
            Err(MockError)
        } else {
            self.log.push(state);
            Ok(())
        }
    }
}

impl OutputLine for MockLine {
    type Error = MockError;

    closed spec fn history(&self) -> Seq<State> {
        self.log@
    }

    fn set_high(&mut self) -> (r: Result<(), MockError>) {
        self.write(State::HIGH)
    }

    fn set_low(&mut self) -> (r: Result<(), MockError>) {
        self.write(State::LOW)
    }
}

} // verus!
