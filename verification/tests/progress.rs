use jukebox::progress::{Phase, ProgressState, DEFAULT_BAR_WIDTH, MAX_BAR_WIDTH};

const SECOND: u128 = 1_000_000_000;

fn playing(total: u128, width: u16, reference: u128) -> ProgressState {
    let mut state = ProgressState::new(total, width);
    state.start(reference);
    state
}

#[test]
fn new_state_is_idle_and_empty() {
    let state = ProgressState::new(200 * SECOND, DEFAULT_BAR_WIDTH);
    assert_eq!(state.phase(), Phase::Idle);
    assert_eq!(state.bar_position(), 0);
    assert_eq!(state.next_threshold_index(), 1);
    assert_eq!(state.bar_width(), 20);
    assert_eq!(state.total_duration(), 200 * SECOND);
    assert_eq!(state.current_elapsed(), 0);
    assert_eq!(state.elapsed_reference(), 0);
    assert!(!state.is_full());
}

#[test]
fn widest_bar_is_accepted() {
    let state = ProgressState::new(SECOND, MAX_BAR_WIDTH);
    assert_eq!(state.bar_width(), 65533);
}

#[test]
fn start_sets_reference_and_phase() {
    let mut state = ProgressState::new(200 * SECOND, 20);
    state.start(7 * SECOND);
    assert_eq!(state.phase(), Phase::Playing);
    assert_eq!(state.elapsed_reference(), 7 * SECOND);
}

#[test]
fn start_is_ignored_unless_idle() {
    let mut state = playing(200 * SECOND, 20, 5);
    state.start(99);
    assert_eq!(state.elapsed_reference(), 5);
    state.finish();
    state.start(123);
    assert_eq!(state.phase(), Phase::Finished);
    assert_eq!(state.elapsed_reference(), 5);
}

#[test]
fn finish_is_ignored_unless_playing() {
    let mut state = ProgressState::new(200 * SECOND, 20);
    state.finish();
    assert_eq!(state.phase(), Phase::Idle);
    state.start(0);
    state.finish();
    assert_eq!(state.phase(), Phase::Finished);
}

#[test]
fn tick_is_ignored_unless_playing() {
    let mut idle = ProgressState::new(200 * SECOND, 20);
    assert_eq!(idle.on_tick(150 * SECOND), Vec::<u16>::new());
    assert_eq!(idle.bar_position(), 0);
    assert_eq!(idle.current_elapsed(), 0);

    let mut done = playing(200 * SECOND, 20, 0);
    assert_eq!(done.on_tick(25 * SECOND), vec![1, 2]);
    done.finish();
    assert_eq!(done.on_tick(150 * SECOND), Vec::<u16>::new());
    assert_eq!(done.bar_position(), 2);
    assert_eq!(done.current_elapsed(), 25 * SECOND);
}

#[test]
fn threshold_is_cell_time_times_index() {
    let mut state = playing(200 * SECOND, 20, 0);
    assert_eq!(state.next_threshold(), Some(10 * SECOND));
    state.on_tick(35 * SECOND);
    assert_eq!(state.next_threshold_index(), 4);
    assert_eq!(state.next_threshold(), Some(40 * SECOND));
}

#[test]
fn cell_time_is_rounded_down() {
    let state = playing(205, 20, 0);
    assert_eq!(state.next_threshold(), Some(10));
    let mut state = playing(205, 20, 0);
    assert_eq!(state.on_tick(201), (1..=20).collect::<Vec<u16>>());
}

#[test]
fn sample_is_now_minus_reference() {
    let mut state = playing(200 * SECOND, 20, 3 * SECOND);
    state.sample(15 * SECOND);
    assert_eq!(state.current_elapsed(), 12 * SECOND);
    assert_eq!(state.bar_position(), 0);
}

#[test]
fn clock_before_reference_counts_as_zero() {
    let mut state = playing(200 * SECOND, 20, 50 * SECOND);
    assert_eq!(state.on_tick(20 * SECOND), Vec::<u16>::new());
    assert_eq!(state.current_elapsed(), 0);
    assert_eq!(state.bar_position(), 0);
}

#[test]
fn step_fills_one_cell_at_a_time() {
    let mut state = playing(200 * SECOND, 20, 0);
    state.sample(25 * SECOND);
    assert_eq!(state.step(), Some(1));
    assert_eq!(state.bar_position(), 1);
    assert_eq!(state.next_threshold_index(), 2);
    assert_eq!(state.step(), Some(2));
    assert_eq!(state.step(), None);
    assert_eq!(state.bar_position(), 2);
    assert_eq!(state.next_threshold_index(), 3);
}

#[test]
fn comparison_with_threshold_is_strict() {
    let mut state = playing(200 * SECOND, 20, 0);
    assert_eq!(state.on_tick(10 * SECOND), Vec::<u16>::new());
    assert_eq!(state.on_tick(10 * SECOND + 1), vec![1]);
}

#[test]
fn indices_increase_and_stay_within_bar() {
    let mut state = playing(200 * SECOND, 20, 0);
    let mut seen: Vec<u16> = Vec::new();
    let samples = [0u128, 3, 12, 12, 47, 31, 120, 119, 200, 201, 500, 100_000];
    for second in samples {
        let before = state.next_threshold_index();
        let cells = state.on_tick(second * SECOND);
        assert!(state.next_threshold_index() >= before);
        assert_eq!(state.next_threshold_index() as usize, before as usize + cells.len());
        seen.extend(cells);
    }
    assert_eq!(seen, (1..=20).collect::<Vec<u16>>());
    assert!(seen.windows(2).all(|pair| pair[0] < pair[1]));
    assert!(seen.iter().all(|&cell| 1 <= cell && cell <= 20));
    assert!(seen.len() <= 20);
    assert!(state.is_full());
}

#[test]
fn full_bar_draws_nothing_more() {
    let mut state = playing(200 * SECOND, 20, 0);
    assert_eq!(state.on_tick(1_000 * SECOND).len(), 20);
    assert!(state.is_full());
    assert_eq!(state.next_threshold(), None);
    assert_eq!(state.next_threshold_index(), 21);
    assert_eq!(state.on_tick(2_000 * SECOND), Vec::<u16>::new());
    assert_eq!(state.step(), None);
    assert_eq!(state.bar_position(), 20);
}

#[test]
fn sample_just_past_threshold_completes_that_cell() {
    for k in 1u16..=20 {
        let mut state = playing(200 * SECOND, 20, 0);
        let cells = state.on_tick(k as u128 * 10 * SECOND + 1);
        assert_eq!(state.bar_position(), k);
        assert_eq!(cells.last(), Some(&k));
        assert_eq!(cells.len(), k as usize);
    }
}

#[test]
fn sample_one_cell_time_past_threshold_still_completes_that_cell() {
    let mut state = playing(200 * SECOND, 20, 0);
    state.on_tick(7 * 10 * SECOND + 10 * SECOND);
    assert_eq!(state.bar_position(), 7);
}

#[test]
fn zero_duration_never_advances() {
    let mut state = playing(0, 20, 0);
    for now in [0u128, 1, SECOND, 1_000_000 * SECOND, u128::MAX] {
        assert_eq!(state.on_tick(now), Vec::<u16>::new());
        assert_eq!(state.step(), None);
        assert_eq!(state.bar_position(), 0);
        assert_eq!(state.phase(), Phase::Playing);
    }
    state.finish();
    assert_eq!(state.phase(), Phase::Finished);
    assert_eq!(state.bar_position(), 0);
}

#[test]
fn duration_shorter_than_the_bar_fills_it_at_once() {
    let mut state = playing(5, 20, 0);
    assert_eq!(state.next_threshold(), Some(0));
    assert_eq!(state.on_tick(0), Vec::<u16>::new());
    assert_eq!(state.on_tick(1), (1..=20).collect::<Vec<u16>>());
}

#[test]
fn coarse_poll_reports_both_skipped_cells() {
    let mut state = playing(200 * SECOND, 20, 0);
    assert_eq!(state.on_tick(5 * SECOND), Vec::<u16>::new());
    let cells = state.on_tick(25 * SECOND);
    assert_eq!(cells, vec![1, 2]);
    assert_eq!(state.bar_position(), 2);
    assert_eq!(state.on_tick(26 * SECOND), Vec::<u16>::new());
}

#[test]
fn thirty_seconds_in_three_cells_are_filled() {
    let mut state = playing(200 * SECOND, 20, 0);
    let cells = state.on_tick(30 * SECOND + 1);
    assert_eq!(cells, vec![1, 2, 3]);
    assert_eq!(state.bar_position(), 3);
}

#[test]
fn huge_durations_do_not_overflow() {
    let mut state = playing(u128::MAX, MAX_BAR_WIDTH, 0);
    let cells = state.on_tick(u128::MAX);
    assert_eq!(cells.len(), MAX_BAR_WIDTH as usize);
    assert!(state.is_full());
}

#[test]
fn advance_fills_the_next_cell_whatever_the_clock_says() {
    let mut state = ProgressState::new(200 * SECOND, 20);
    assert_eq!(state.advance(), Some(1));
    assert_eq!(state.advance(), Some(2));
    assert_eq!(state.advance(), Some(3));
    assert_eq!(state.bar_position(), 3);
    assert_eq!(state.next_threshold_index(), 4);
    assert_eq!(state.phase(), Phase::Idle);
    assert_eq!(state.current_elapsed(), 0);
    state.start(0);
    assert_eq!(state.on_tick(25 * SECOND), Vec::<u16>::new());
    assert_eq!(state.on_tick(45 * SECOND), vec![4]);
}

#[test]
fn advance_stops_at_the_full_bar() {
    let mut state = ProgressState::new(200 * SECOND, 3);
    assert_eq!(state.advance(), Some(1));
    assert_eq!(state.advance(), Some(2));
    assert_eq!(state.advance(), Some(3));
    assert_eq!(state.advance(), None);
    assert_eq!(state.bar_position(), 3);
    assert_eq!(state.next_threshold_index(), 4);
    assert!(state.is_full());
}
