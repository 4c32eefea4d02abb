use nrf_rustboard::config::{COLS, KEY_DEBOUNCE, MATRIX_KEYS_BUFFER, ROWS};
use nrf_rustboard::keycodes::KC;
use nrf_rustboard::matrix::{row_delay_us, Key, KeyPos, KeyState, Matrix, MatrixKey, ScanState};

fn no_levels() -> [[bool; COLS]; ROWS] {
    [[false; COLS]; ROWS]
}

fn pos(row: u8, col: u8) -> KeyPos {
    KeyPos { row, col }
}

fn count(m: &Matrix, p: KeyPos) -> usize {
    m.entries().iter().filter(|e| e.keypos == p).count()
}

#[test]
fn default_position_is_the_sentinel() {
    assert_eq!(KeyPos::default(), KeyPos { row: 255, col: 255 });
}

#[test]
fn default_key_is_a_free_slot() {
    let k = Key::default();
    assert_eq!(k.code, KC::EU);
    assert_eq!(k.position, KeyPos::default());
    assert_eq!(k.state, KeyState::Released);
    assert_eq!(k.time, 0);
    assert_eq!(KeyState::default(), KeyState::Released);
    assert_eq!(MatrixKey::default(), MatrixKey { keypos: KeyPos::default(), time: 0 });
}

#[test]
fn new_scanner_is_idle_and_empty() {
    let m = Matrix::init();
    assert_eq!(m.state(), ScanState::Idle);
    assert_eq!(m.snapshot(), [KeyPos::default(); MATRIX_KEYS_BUFFER]);
    assert_eq!(m.published(), [KeyPos::default(); MATRIX_KEYS_BUFFER]);
    assert_eq!(m.entries(), [MatrixKey::default(); MATRIX_KEYS_BUFFER]);
}

#[test]
fn observe_takes_first_free_slot() {
    let mut m = Matrix::init();
    m.observe(pos(1, 2), 100);
    m.observe(pos(3, 4), 101);
    let e = m.entries();
    assert_eq!(e[0], MatrixKey { keypos: pos(1, 2), time: 100 });
    assert_eq!(e[1], MatrixKey { keypos: pos(3, 4), time: 101 });
    assert_eq!(e[2].keypos, KeyPos::default());
    assert_eq!(m.state(), ScanState::Strobing);
}

#[test]
fn repeated_observation_refreshes_the_one_entry() {
    let mut m = Matrix::init();
    m.observe(pos(0, 5), 100);
    m.observe(pos(2, 2), 100);
    m.observe(pos(2, 2), 103);
    m.observe(pos(2, 2), 109);
    assert_eq!(count(&m, pos(2, 2)), 1);
    assert_eq!(m.entries()[1], MatrixKey { keypos: pos(2, 2), time: 109 });
    assert_eq!(m.entries()[0], MatrixKey { keypos: pos(0, 5), time: 100 });
}

#[test]
fn observation_within_the_window_survives_expiry() {
    let mut m = Matrix::init();
    m.observe(pos(2, 2), 100);
    let live = m.debouncer(100 + KEY_DEBOUNCE - 1);
    assert_eq!(live[0], pos(2, 2));
    m.observe(pos(2, 2), 100 + KEY_DEBOUNCE - 1);
    assert_eq!(count(&m, pos(2, 2)), 1);
    assert_eq!(m.entries()[0].time, 100 + KEY_DEBOUNCE - 1);
    let live = m.debouncer(100 + KEY_DEBOUNCE);
    assert_eq!(live[0], pos(2, 2));
}

#[test]
fn entry_expires_when_the_window_has_passed() {
    let mut m = Matrix::init();
    m.observe(pos(1, 1), 50);
    assert_eq!(m.debouncer(50 + KEY_DEBOUNCE - 1)[0], pos(1, 1));
    let live = m.debouncer(50 + KEY_DEBOUNCE);
    assert_eq!(live, [KeyPos::default(); MATRIX_KEYS_BUFFER]);
    assert_eq!(m.entries()[0], MatrixKey { keypos: KeyPos::default(), time: 50 });
    assert_eq!(m.state(), ScanState::Idle);
}

#[test]
fn expiry_well_after_the_window() {
    let mut m = Matrix::init();
    m.observe(pos(1, 1), 50);
    m.observe(pos(1, 2), 70);
    let live = m.debouncer(75);
    assert_eq!(live[0], KeyPos::default());
    assert_eq!(live[1], pos(1, 2));
}

#[test]
fn expiry_with_a_clock_before_the_observation_frees_nothing() {
    let mut m = Matrix::init();
    m.observe(pos(1, 1), 500);
    assert_eq!(m.debouncer(3)[0], pos(1, 1));
}

#[test]
fn expiry_near_the_end_of_time_does_not_overflow() {
    let mut m = Matrix::init();
    m.observe(pos(1, 1), u64::MAX - 3);
    assert_eq!(m.debouncer(u64::MAX)[0], pos(1, 1));
    m.observe(pos(0, 0), u64::MAX - KEY_DEBOUNCE);
    let live = m.debouncer(u64::MAX);
    assert_eq!(live[0], pos(1, 1));
    assert_eq!(live[1], KeyPos::default());
}

#[test]
fn full_ledger_drops_a_new_position() {
    let mut m = Matrix::init();
    for c in 0..6u8 {
        m.observe(pos(0, c), 10);
    }
    let before = m.entries();
    m.observe(pos(1, 0), 11);
    assert_eq!(m.entries(), before);
    m.observe(pos(0, 3), 12);
    assert_eq!(m.entries()[3], MatrixKey { keypos: pos(0, 3), time: 12 });
    assert_eq!(count(&m, pos(0, 3)), 1);
}

#[test]
fn freed_slot_is_taken_again() {
    let mut m = Matrix::init();
    m.observe(pos(0, 0), 0);
    m.observe(pos(0, 1), 5);
    let _ = m.debouncer(KEY_DEBOUNCE);
    m.observe(pos(3, 3), KEY_DEBOUNCE);
    assert_eq!(m.entries()[0], MatrixKey { keypos: pos(3, 3), time: KEY_DEBOUNCE });
    assert_eq!(m.entries()[1], MatrixKey { keypos: pos(0, 1), time: 5 });
}

#[test]
fn scan_publishes_only_on_change() {
    let mut m = Matrix::init();
    let mut levels = no_levels();
    levels[1][2] = true;
    let first = m.scan(&levels, 1000);
    let mut expected = [KeyPos::default(); MATRIX_KEYS_BUFFER];
    expected[0] = pos(1, 2);
    assert_eq!(first, Some(expected));
    assert_eq!(m.published(), expected);
    assert_eq!(m.scan(&levels, 1001), None);
    assert_eq!(m.scan(&levels, 1002), None);
    assert_eq!(m.scan(&no_levels(), 1002 + KEY_DEBOUNCE - 1), None);
    assert_eq!(
        m.scan(&no_levels(), 1002 + KEY_DEBOUNCE),
        Some([KeyPos::default(); MATRIX_KEYS_BUFFER])
    );
    assert_eq!(m.scan(&no_levels(), 2000), None);
}

#[test]
fn scan_of_an_idle_matrix_publishes_nothing() {
    let mut m = Matrix::init();
    assert_eq!(m.scan(&no_levels(), 0), None);
    assert_eq!(m.state(), ScanState::Idle);
}

#[test]
fn scan_registers_in_row_then_column_order() {
    let mut m = Matrix::init();
    let mut levels = no_levels();
    levels[2][1] = true;
    levels[0][4] = true;
    levels[2][0] = true;
    let out = m.scan(&levels, 7);
    let mut expected = [KeyPos::default(); MATRIX_KEYS_BUFFER];
    expected[0] = pos(0, 4);
    expected[1] = pos(2, 0);
    expected[2] = pos(2, 1);
    assert_eq!(out, Some(expected));
    assert_eq!(m.entries()[2], MatrixKey { keypos: pos(2, 1), time: 7 });
}

#[test]
fn scan_tracks_at_most_six_positions() {
    let mut m = Matrix::init();
    let mut levels = no_levels();
    for c in 0..COLS {
        levels[0][c] = true;
    }
    levels[1][0] = true;
    let out = m.scan(&levels, 1).unwrap();
    for c in 0..6u8 {
        assert_eq!(out[c as usize], pos(0, c));
    }
    assert_eq!(count(&m, pos(1, 0)), 0);
}

#[test]
fn publish_hands_out_the_live_positions_once() {
    let mut m = Matrix::init();
    assert_eq!(m.publish(), None);
    m.observe(pos(3, 5), 1);
    let mut expected = [KeyPos::default(); MATRIX_KEYS_BUFFER];
    expected[0] = pos(3, 5);
    assert_eq!(m.publish(), Some(expected));
    assert_eq!(m.publish(), None);
    assert_eq!(m.snapshot(), expected);
}

#[test]
fn row_delay_splits_one_millisecond_over_the_rows() {
    assert_eq!(row_delay_us(), 250);
    assert!(row_delay_us() * (ROWS as u64) <= 1000);
}
