//! The four-phase excitation table and the phase-index arithmetic.
//!
//! The table is the standard half-overlap pattern for a four-wire
//! unipolar motor: each row energizes exactly two adjacent coils, and
//! consecutive rows overlap in exactly one energized coil.

use crate::line::State;
use crate::Direction;
use vstd::prelude::*;

verus! {

/// Row `phase` of the excitation table: the level each of the four
/// lines is driven to while that phase is applied, line 1 first.
pub open spec fn phase_row(phase: int) -> Seq<State> {
    if phase == 0 {
        seq![State::HIGH, State::HIGH, State::LOW, State::LOW]
    } else if phase == 1 {
        seq![State::LOW, State::HIGH, State::HIGH, State::LOW]
    } else if phase == 2 {
        seq![State::LOW, State::LOW, State::HIGH, State::HIGH]
    } else {
        seq![State::HIGH, State::LOW, State::LOW, State::HIGH]
    }
}

/// The row written by `disable`: every line low, de-energizing the motor.
pub open spec fn low_row() -> Seq<State> {
    seq![State::LOW, State::LOW, State::LOW, State::LOW]
}

/// The entry of the excitation table at row `phase`, column `line`.
///
/// A line is high exactly while the phase index points at it or at the
/// line just before it, cyclically; this is what produces two adjacent
/// highs per row.
pub fn phase_entry(phase: usize, line: usize) -> (s: State)
    requires
        phase < 4,
        line < 4,
    ensures
        s == phase_row(phase as int)[line as int],
{
    if line == phase || (phase < 3 && line == phase + 1) || (phase == 3 && line == 0) {
        State::HIGH
    } else {
        State::LOW
    }
}

/// The phase index reached from `phase` by one step in direction
/// `direction`: up by one for clockwise, down by one for
/// counter-clockwise, wrapping within `[0, 3]`.
pub open spec fn next_phase(phase: int, direction: Direction) -> int {
    match direction {
        Direction::CW => if phase < 3 {
            phase + 1
        } else {
            0
        },
        Direction::CCW => if phase > 0 {
            phase - 1
        } else {
            3
        },
    }
}

/// The phase index reached from `start` by `n` steps in direction
/// `direction`.
pub open spec fn phase_after(start: int, direction: Direction, n: nat) -> int
    decreases n,
{
    if n == 0 {
        start
    } else {
        next_phase(phase_after(start, direction, (n - 1) as nat), direction)
    }
}

/// The other rotation direction.
pub open spec fn opposite(direction: Direction) -> Direction {
    match direction {
        Direction::CW => Direction::CCW,
        Direction::CCW => Direction::CW,
    }
}

/// 1 for a high level, 0 for a low one.
pub open spec fn high_bit(s: State) -> int {
    match s {
        State::HIGH => 1,
        State::LOW => 0,
    }
}

/// How many of the four entries of `row` are high.
pub open spec fn count_high(row: Seq<State>) -> int
    recommends
        row.len() == 4,
{
    high_bit(row[0]) + high_bit(row[1]) + high_bit(row[2]) + high_bit(row[3])
}

/// 1 if both levels are high, 0 otherwise.
pub open spec fn both_high_bit(a: State, b: State) -> int {
    if a == State::HIGH && b == State::HIGH {
        1
    } else {
        0
    }
}

/// How many of the four line positions are high in both `a` and `b`.
pub open spec fn count_both_high(a: Seq<State>, b: Seq<State>) -> int
    recommends
        a.len() == 4,
        b.len() == 4,
{
    both_high_bit(a[0], b[0]) + both_high_bit(a[1], b[1]) + both_high_bit(a[2], b[2])
        + both_high_bit(a[3], b[3])
}

} // verus!
