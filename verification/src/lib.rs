//! Driver for four-wire unipolar stepper motors.
//!
//! The driver owns four digital output lines and walks them through the
//! standard half-overlap four-phase excitation sequence, one phase per
//! `step` call, in either rotation direction.

pub mod ic;
pub mod laws;
pub mod line;
pub mod mock;
pub mod phase;

use core::marker::PhantomData;
use crate::line::{digital_write, OutputLine, State};
use crate::phase::{low_row, next_phase, phase_entry, phase_row};
use vstd::prelude::*;

verus! {

/// Stepper rotation direction.
#[derive(Clone, Copy, PartialEq, Eq, Structural, Debug)]
pub enum Direction {
    /// Clockwise
    CW,
    /// Counter Clockwise
    CCW,
}

/// Ghost abstraction of a stepper: its phase index, its direction, and
/// the record of levels written to each of its four lines.
pub struct StepperModel {
    /// Current row of the excitation table, in `[0, 3]`.
    pub phase: int,
    /// Current rotation direction.
    pub direction: Direction,
    /// Levels written to line 1, oldest first.
    pub line1: Seq<State>,
    /// Levels written to line 2, oldest first.
    pub line2: Seq<State>,
    /// Levels written to line 3, oldest first.
    pub line3: Seq<State>,
    /// Levels written to line 4, oldest first.
    pub line4: Seq<State>,
}

/// Holds when going from `pre` to `post` the first `k` lines each
/// received the level `row` assigns to them, in line order, and the
/// remaining lines received nothing.
///
/// `k == 4` says the whole row was written; `k < 4` describes a write
/// sequence abandoned just before line `k + 1`.
pub open spec fn row_written_up_to(
    pre: StepperModel,
    post: StepperModel,
    row: Seq<State>,
    k: int,
) -> bool {
    &&& post.line1 == (if 0 < k {
        pre.line1.push(row[0])
    } else {
        pre.line1
    })
    &&& post.line2 == (if 1 < k {
        pre.line2.push(row[1])
    } else {
        pre.line2
    })
    &&& post.line3 == (if 2 < k {
        pre.line3.push(row[2])
    } else {
        pre.line3
    })
    &&& post.line4 == (if 3 < k {
        pre.line4.push(row[3])
    } else {
        pre.line4
    })
}

/// Holds when a `step` call succeeded going from `pre` to `post`: the
/// whole table row for the old phase was written and the phase index
/// advanced one position in the current direction.
pub open spec fn stepped(pre: StepperModel, post: StepperModel) -> bool {
    &&& post.direction == pre.direction
    &&& post.phase == next_phase(pre.phase, pre.direction)
    &&& row_written_up_to(pre, post, phase_row(pre.phase), 4)
}

/// Holds when a `step` call failed going from `pre` to `post`: the
/// phase index and direction are untouched, some prefix of the table
/// row was written, and the lines after the failing one got nothing.
pub open spec fn step_failed(pre: StepperModel, post: StepperModel) -> bool {
    &&& post.direction == pre.direction
    &&& post.phase == pre.phase
    &&& exists|k: int| 0 <= k < 4 && row_written_up_to(pre, post, phase_row(pre.phase), k)
}

/// Holds when a `disable` call succeeded going from `pre` to `post`:
/// all four lines were driven low and the phase index and direction
/// are untouched.
pub open spec fn disabled(pre: StepperModel, post: StepperModel) -> bool {
    &&& post.direction == pre.direction
    &&& post.phase == pre.phase
    &&& row_written_up_to(pre, post, low_row(), 4)
}

/// Holds when a `disable` call failed going from `pre` to `post`: the
/// phase index and direction are untouched, some prefix of the all-low
/// row was written, and the lines after the failing one got nothing.
pub open spec fn disable_failed(pre: StepperModel, post: StepperModel) -> bool {
    &&& post.direction == pre.direction
    &&& post.phase == pre.phase
    &&& exists|k: int| 0 <= k < 4 && row_written_up_to(pre, post, low_row(), k)
}

/// A stepper motor driver over four digital output lines.
#[verifier::reject_recursive_types(ERROR)]
pub struct Stepper<IN1, IN2, IN3, IN4, IC, ERROR> where
    IN1: OutputLine<Error = ERROR>,
    IN2: OutputLine<Error = ERROR>,
    IN3: OutputLine<Error = ERROR>,
    IN4: OutputLine<Error = ERROR>,
 {
    index: usize,
    /// clockwise or counterclockwise rotation
    pub direction: Direction,
    in1: IN1,
    in2: IN2,
    in3: IN3,
    in4: IN4,
    _ic: PhantomData<IC>,
}

impl<IN1, IN2, IN3, IN4, IC, ERROR> View for Stepper<IN1, IN2, IN3, IN4, IC, ERROR> where
    IN1: OutputLine<Error = ERROR>,
    IN2: OutputLine<Error = ERROR>,
    IN3: OutputLine<Error = ERROR>,
    IN4: OutputLine<Error = ERROR>,
 {
    type V = StepperModel;

    closed spec fn view(&self) -> StepperModel {
        StepperModel {
            phase: self.index as int,
            direction: self.direction,
            line1: self.in1.history(),
            line2: self.in2.history(),
            line3: self.in3.history(),
            line4: self.in4.history(),
        }
    }
}

impl<IN1, IN2, IN3, IN4, IC, ERROR> Stepper<IN1, IN2, IN3, IN4, IC, ERROR> where
    IN1: OutputLine<Error = ERROR>,
    IN2: OutputLine<Error = ERROR>,
    IN3: OutputLine<Error = ERROR>,
    IN4: OutputLine<Error = ERROR>,
 {
    /// The phase index is a valid row of the excitation table.
    pub open spec fn wf(&self) -> bool {
        0 <= self@.phase < 4
    }

    /// Change the stepper direction
    pub fn direction(&mut self, direction: Direction)
        ensures
            final(self)@ == (StepperModel { direction, ..old(self)@ }),
    {
        self.direction = direction;
    }

    /// The current row of the excitation table, in `[0, 3]`.
    pub fn index(&self) -> (i: usize)
        ensures
            i == self@.phase,
    {
        self.index
    }

    /// Make the stepper move one step
    ///
    /// Writes the current table row to the four lines in line order and
    /// then, only if all four writes succeeded, advances the phase index
    /// one position in the current direction. On the first failed write
    /// the error is returned at once: later lines are left unwritten and
    /// the phase index keeps its value, so it always names the last
    /// fully applied row.
    pub fn step(&mut self) -> (r: Result<(), ERROR>)
        requires
            old(self).wf(),
        ensures
            final(self).wf(),
            r is Ok ==> stepped(old(self)@, final(self)@),
            r is Err ==> step_failed(old(self)@, final(self)@),
    {
        let ghost pre = self@;
        let ghost row = phase_row(pre.phase);
        match digital_write(&phase_entry(self.index, 0), &mut self.in1) {
            Ok(u) => u,
            Err(e) => {
                assert(row_written_up_to(pre, self@, row, 0));
                return Err(e);
            },
        }
        match digital_write(&phase_entry(self.index, 1), &mut self.in2) {
            Ok(u) => u,
            Err(e) => {
                assert(row_written_up_to(pre, self@, row, 1));
                return Err(e);
            },
        }
        match digital_write(&phase_entry(self.index, 2), &mut self.in3) {
            Ok(u) => u,
            Err(e) => {
                assert(row_written_up_to(pre, self@, row, 2));
                return Err(e);
            },
        }
        match digital_write(&phase_entry(self.index, 3), &mut self.in4) {
            Ok(u) => u,
            Err(e) => {
                assert(row_written_up_to(pre, self@, row, 3));
                return Err(e);
            },
        }
        self.index = match self.direction {
            Direction::CW => if self.index < 3 {
                self.index + 1
            } else {
                0
            },
            Direction::CCW => if self.index > 0 {
                self.index - 1
            } else {
                3
            },
        };
        Ok(())
    }

    /// Disable stepper
    ///
    /// Drives all four lines low in line order, de-energizing the motor
    /// without losing the phase position: neither the phase index nor
    /// the direction changes, whether the writes succeed or fail. On the
    /// first failed write the error is returned at once and later lines
    /// are left unwritten.
    pub fn disable(&mut self) -> (r: Result<(), ERROR>)
        ensures
            r is Ok ==> disabled(old(self)@, final(self)@),
            r is Err ==> disable_failed(old(self)@, final(self)@),
    {
        let ghost pre = self@;
        match self.in1.set_low() {
            Ok(u) => u,
            Err(e) => {
                assert(row_written_up_to(pre, self@, low_row(), 0));
                return Err(e);
            },
        }
        match self.in2.set_low() {
            Ok(u) => u,
            Err(e) => {
                assert(row_written_up_to(pre, self@, low_row(), 1));
                return Err(e);
            },
        }
        match self.in3.set_low() {
            Ok(u) => u,
            Err(e) => {
                assert(row_written_up_to(pre, self@, low_row(), 2));
                return Err(e);
            },
        }
        match self.in4.set_low() {
            Ok(u) => u,
            Err(e) => {
                assert(row_written_up_to(pre, self@, low_row(), 3));
                return Err(e);
            },
        }
        Ok(())
    }

    /// Give the four lines back to the caller, in line order.
    pub fn release(self) -> (r: (IN1, IN2, IN3, IN4))
        ensures
            r.0.history() == self@.line1,
            r.1.history() == self@.line2,
            r.2.history() == self@.line3,
            r.3.history() == self@.line4,
    {
        let Stepper { index: _, direction: _, in1, in2, in3, in4, _ic } = self;
        (in1, in2, in3, in4)
    }
}

impl<IN1, IN2, IN3, IN4, ERROR> Stepper<IN1, IN2, IN3, IN4, crate::ic::ULN2003, ERROR> where
    IN1: OutputLine<Error = ERROR>,
    IN2: OutputLine<Error = ERROR>,
    IN3: OutputLine<Error = ERROR>,
    IN4: OutputLine<Error = ERROR>,
 {
    /// Creates a new `Stepper`
    ///
    /// Binds the four lines in line order with the phase index at row 0;
    /// no line is driven until the first `step` or `disable` call.
    pub fn uln2003(direction: Direction, in1: IN1, in2: IN2, in3: IN3, in4: IN4) -> (s: Self)
        ensures
            s.wf(),
            s@ == (StepperModel {
                phase: 0,
                direction,
                line1: in1.history(),
                line2: in2.history(),
                line3: in3.history(),
                line4: in4.history(),
            }),
    {
        Stepper { index: 0, direction, in1, in2, in3, in4, _ic: PhantomData }
    }
}

} // verus!
