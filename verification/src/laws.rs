//! Proved properties of the excitation table and the phase arithmetic.

use crate::phase::{count_both_high, count_high, next_phase, opposite, phase_after, phase_row};
use crate::Direction;
use vstd::prelude::*;

verus! {

/// Four steps in one direction form a full cycle: from any valid phase
/// index, stepping four times in either direction returns the index to
/// its starting value.
pub proof fn lemma_full_cycle(phase: int, direction: Direction)
    requires
        0 <= phase < 4,
    ensures
        next_phase(
            next_phase(next_phase(next_phase(phase, direction), direction), direction),
            direction,
        ) == phase,
{
}

/// Every row of the excitation table drives exactly two of the four
/// lines high.
pub proof fn lemma_two_high(phase: int)
    requires
        0 <= phase < 4,
    ensures
        count_high(phase_row(phase)) == 2,
{
}

/// Consecutive rows of the excitation table overlap in exactly one
/// high line, the half-overlap that keeps one coil energized across
/// each phase change.
pub proof fn lemma_adjacent_overlap(phase: int)
    requires
        0 <= phase < 4,
    ensures
        count_both_high(phase_row(phase), phase_row(next_phase(phase, Direction::CW))) == 1,
{
}

/// Clockwise stepping walks the phase indices upward cyclically: after
/// `n` steps from `start` the index is `(start + n) % 4`, so from 0 the
/// sequence of indices is 0, 1, 2, 3, 0, 1, ...
pub proof fn lemma_cw_sequence(start: int, n: nat)
    requires
        0 <= start < 4,
    ensures
        phase_after(start, Direction::CW, n) == (start + n) % 4,
    decreases n,
{
    if n > 0 {
        lemma_cw_sequence(start, (n - 1) as nat);
    }
}

/// Counter-clockwise stepping walks the phase indices downward
/// cyclically: after `n` steps from `start` the index is
/// `(start + 3 * n) % 4`, so from 0 the sequence of indices is
/// 0, 3, 2, 1, 0, 3, ...
pub proof fn lemma_ccw_sequence(start: int, n: nat)
    requires
        0 <= start < 4,
    ensures
        phase_after(start, Direction::CCW, n) == (start + 3 * n) % 4,
    decreases n,
{
    if n > 0 {
        lemma_ccw_sequence(start, (n - 1) as nat);
    }
}

/// Reversing the direction reverses the index advancement: one step in
/// a direction followed by one step in the opposite direction returns
/// the phase index to its starting value.
pub proof fn lemma_opposite_cancels(phase: int, direction: Direction)
    requires
        0 <= phase < 4,
    ensures
        next_phase(next_phase(phase, direction), opposite(direction)) == phase,
{
}

} // verus!
