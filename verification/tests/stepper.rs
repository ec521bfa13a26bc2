use stepper_driver::line::State;
use stepper_driver::mock::{MockError, MockLine};
use stepper_driver::phase::phase_entry;
use stepper_driver::{Direction, Stepper};

#[test]
fn new_stepper_starts_at_index_zero_and_writes_nothing() {
    let s = Stepper::uln2003(
        Direction::CW,
        MockLine::new(),
        MockLine::new(),
        MockLine::new(),
        MockLine::new(),
    );
    assert_eq!(s.index(), 0);
    assert_eq!(s.direction, Direction::CW);
    let (l1, l2, l3, l4) = s.release();
    assert!(l1.writes().is_empty());
    assert!(l2.writes().is_empty());
    assert!(l3.writes().is_empty());
    assert!(l4.writes().is_empty());
}

#[test]
fn cw_stepping_cycles_indices_upward() {
    let mut s = Stepper::uln2003(
        Direction::CW,
        MockLine::new(),
        MockLine::new(),
        MockLine::new(),
        MockLine::new(),
    );
    let expected = [1, 2, 3, 0, 1, 2, 3, 0];
    for want in expected {
        assert_eq!(s.step(), Ok(()));
        assert_eq!(s.index(), want);
    }
}

#[test]
fn ccw_stepping_cycles_indices_downward() {
    let mut s = Stepper::uln2003(
        Direction::CCW,
        MockLine::new(),
        MockLine::new(),
        MockLine::new(),
        MockLine::new(),
    );
    let expected = [3, 2, 1, 0, 3, 2, 1, 0];
    for want in expected {
        assert_eq!(s.step(), Ok(()));
        assert_eq!(s.index(), want);
    }
}

#[test]
fn four_steps_return_the_index_to_its_start_from_any_phase() {
    for direction in [Direction::CW, Direction::CCW] {
        for start in 0..4usize {
            let mut s = Stepper::uln2003(
                direction,
                MockLine::new(),
                MockLine::new(),
                MockLine::new(),
                MockLine::new(),
            );
            for _ in 0..start {
                assert_eq!(s.step(), Ok(()));
            }
            let origin = s.index();
            for _ in 0..4 {
                assert_eq!(s.step(), Ok(()));
            }
            assert_eq!(s.index(), origin);
        }
    }
}

#[test]
fn each_step_writes_the_current_table_row() {
    let mut s = Stepper::uln2003(
        Direction::CW,
        MockLine::new(),
        MockLine::new(),
        MockLine::new(),
        MockLine::new(),
    );
    for _ in 0..4 {
        assert_eq!(s.step(), Ok(()));
    }
    let (l1, l2, l3, l4) = s.release();
    assert_eq!(
        *l1.writes(),
        vec![State::HIGH, State::LOW, State::LOW, State::HIGH]
    );
    assert_eq!(
        *l2.writes(),
        vec![State::HIGH, State::HIGH, State::LOW, State::LOW]
    );
    assert_eq!(
        *l3.writes(),
        vec![State::LOW, State::HIGH, State::HIGH, State::LOW]
    );
    assert_eq!(
        *l4.writes(),
        vec![State::LOW, State::LOW, State::HIGH, State::HIGH]
    );
    for i in 0..4 {
        let row = [l1.writes()[i], l2.writes()[i], l3.writes()[i], l4.writes()[i]];
        let highs = row.iter().filter(|s| **s == State::HIGH).count();
        assert_eq!(highs, 2);
    }
}

#[test]
fn phase_entry_matches_the_excitation_table() {
    let table = [
        [State::HIGH, State::HIGH, State::LOW, State::LOW],
        [State::LOW, State::HIGH, State::HIGH, State::LOW],
        [State::LOW, State::LOW, State::HIGH, State::HIGH],
        [State::HIGH, State::LOW, State::LOW, State::HIGH],
    ];
    for phase in 0..4 {
        for line in 0..4 {
            assert_eq!(phase_entry(phase, line), table[phase][line]);
        }
    }
}

#[test]
fn disable_writes_all_lines_low_and_keeps_index_and_direction() {
    let mut s = Stepper::uln2003(
        Direction::CW,
        MockLine::new(),
        MockLine::new(),
        MockLine::new(),
        MockLine::new(),
    );
    assert_eq!(s.step(), Ok(()));
    assert_eq!(s.step(), Ok(()));
    assert_eq!(s.index(), 2);
    assert_eq!(s.disable(), Ok(()));
    assert_eq!(s.index(), 2);
    assert_eq!(s.direction, Direction::CW);
    let (l1, l2, l3, l4) = s.release();
    for l in [&l1, &l2, &l3, &l4] {
        assert_eq!(l.writes().len(), 3);
        assert_eq!(*l.writes().last().unwrap(), State::LOW);
    }
}

#[test]
fn changing_direction_reverses_advancement_and_writes_nothing() {
    let mut s = Stepper::uln2003(
        Direction::CW,
        MockLine::new(),
        MockLine::new(),
        MockLine::new(),
        MockLine::new(),
    );
    assert_eq!(s.step(), Ok(()));
    assert_eq!(s.index(), 1);
    s.direction(Direction::CCW);
    assert_eq!(s.index(), 1);
    assert_eq!(s.direction, Direction::CCW);
    assert_eq!(s.step(), Ok(()));
    assert_eq!(s.index(), 0);
    let (l1, l2, l3, l4) = s.release();
    for l in [&l1, &l2, &l3, &l4] {
        assert_eq!(l.writes().len(), 2);
    }
}

#[test]
fn failed_write_on_second_line_leaves_index_and_later_lines_untouched() {
    let mut s = Stepper::uln2003(
        Direction::CW,
        MockLine::new(),
        MockLine::failing_on(0),
        MockLine::new(),
        MockLine::new(),
    );
    assert_eq!(s.step(), Err(MockError));
    assert_eq!(s.index(), 0);
    let (l1, l2, l3, l4) = s.release();
    assert_eq!(*l1.writes(), vec![State::HIGH]);
    assert!(l2.writes().is_empty());
    assert!(l3.writes().is_empty());
    assert!(l4.writes().is_empty());
}

#[test]
fn failed_write_on_a_later_step_keeps_the_last_applied_phase() {
    let mut s = Stepper::uln2003(
        Direction::CW,
        MockLine::new(),
        MockLine::failing_on(1),
        MockLine::new(),
        MockLine::new(),
    );
    assert_eq!(s.step(), Ok(()));
    assert_eq!(s.index(), 1);
    assert_eq!(s.step(), Err(MockError));
    assert_eq!(s.index(), 1);
    let (l1, l2, _l3, _l4) = s.release();
    assert_eq!(*l1.writes(), vec![State::HIGH, State::LOW]);
    assert_eq!(*l2.writes(), vec![State::HIGH]);
}

#[test]
fn failed_disable_leaves_index_and_later_lines_untouched() {
    let mut s = Stepper::uln2003(
        Direction::CW,
        MockLine::new(),
        MockLine::failing_on(0),
        MockLine::new(),
        MockLine::new(),
    );
    assert_eq!(s.disable(), Err(MockError));
    assert_eq!(s.index(), 0);
    let (l1, l2, l3, l4) = s.release();
    assert_eq!(*l1.writes(), vec![State::LOW]);
    assert!(l2.writes().is_empty());
    assert!(l3.writes().is_empty());
    assert!(l4.writes().is_empty());
}

#[test]
fn two_steps_then_disable_scenario() {
    let mut s = Stepper::uln2003(
        Direction::CW,
        MockLine::new(),
        MockLine::new(),
        MockLine::new(),
        MockLine::new(),
    );
    assert_eq!(s.step(), Ok(()));
    assert_eq!(s.index(), 1);
    assert_eq!(s.step(), Ok(()));
    assert_eq!(s.index(), 2);
    assert_eq!(s.disable(), Ok(()));
    assert_eq!(s.index(), 2);
    let (l1, l2, l3, l4) = s.release();
    // first step: (HIGH, HIGH, LOW, LOW); second: (LOW, HIGH, HIGH, LOW);
    // disable: (LOW, LOW, LOW, LOW)
    assert_eq!(*l1.writes(), vec![State::HIGH, State::LOW, State::LOW]);
    assert_eq!(*l2.writes(), vec![State::HIGH, State::HIGH, State::LOW]);
    assert_eq!(*l3.writes(), vec![State::LOW, State::HIGH, State::LOW]);
    assert_eq!(*l4.writes(), vec![State::LOW, State::LOW, State::LOW]);
}
