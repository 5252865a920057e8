use cg_demo::state::AppState;

#[test]
fn new_state_defaults() {
    let state = AppState::new(2);
    assert!(!state.should_terminate);
    assert_eq!(state.used_program_idx, 0);
    assert_eq!(state.program_count, 2);
    assert_eq!(state.samples_idx, 0);
}

#[test]
fn terminate_sets_flag_and_nothing_else() {
    let mut state = AppState::new(2);
    state.terminate();
    assert!(state.should_terminate);
    assert_eq!(state.used_program_idx, 0);
    assert_eq!(state.samples_idx, 0);
}

#[test]
fn cycle_programs_wraps_around() {
    let mut state = AppState::new(2);
    state.cycle_programs();
    assert_eq!(state.used_program_idx, 1);
    assert_eq!(state.current_program_index(), 1);
    state.cycle_programs();
    assert_eq!(state.used_program_idx, 0);
}

#[test]
fn cycle_programs_single_program_stays() {
    let mut state = AppState::new(1);
    state.cycle_programs();
    assert_eq!(state.used_program_idx, 0);
}

#[test]
fn increase_samples_stops_at_table_end() {
    let mut state = AppState::new(2);
    for _ in 0..10 {
        state.increase_samples();
        assert!(state.samples_idx <= 5);
    }
    assert_eq!(state.samples_idx, 5);
}

#[test]
fn decrease_samples_stops_at_zero() {
    let mut state = AppState::new(2);
    state.decrease_samples();
    assert_eq!(state.samples_idx, 0);
    state.increase_samples();
    state.increase_samples();
    state.decrease_samples();
    assert_eq!(state.samples_idx, 1);
    state.decrease_samples();
    state.decrease_samples();
    assert_eq!(state.samples_idx, 0);
}
