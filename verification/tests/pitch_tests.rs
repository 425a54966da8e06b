use todo_iced_sqlite::pitch::{
    grab_pitch_offset, grid_line, is_black_key, moved_pitch, pitch_at_row, pitch_count,
    pitch_row, shift_pitch_window, GridLine,
};

#[test]
fn scrolling_moves_the_window_and_keeps_its_span() {
    assert_eq!(shift_pitch_window(48, 72, 1), (49, 73));
    assert_eq!(shift_pitch_window(48, 72, -3), (45, 69));
    assert_eq!(shift_pitch_window(48, 72, 0), (48, 72));
}

#[test]
fn scrolling_stops_at_the_ends_of_the_range() {
    assert_eq!(shift_pitch_window(48, 72, -60), (0, 24));
    assert_eq!(shift_pitch_window(100, 120, 20), (107, 127));
    assert_eq!(shift_pitch_window(0, 127, 5), (0, 127));
    assert_eq!(shift_pitch_window(0, 127, -5), (0, 127));
}

#[test]
fn scrolling_back_restores_the_window() {
    let (lo, hi) = shift_pitch_window(48, 72, 5);
    assert_eq!(shift_pitch_window(lo, hi, -5), (48, 72));
}

#[test]
fn scrolling_a_window_wider_than_the_range_wraps_its_bottom() {
    // The bottom is stored back into a u8 after going below zero.
    assert_eq!(shift_pitch_window(0, 200, 1), (183, 127));
}

#[test]
fn rows_and_pitches() {
    assert_eq!(pitch_count(48, 72), 25);
    assert_eq!(pitch_count(60, 60), 1);
    assert_eq!(pitch_row(72, 72), 0);
    assert_eq!(pitch_row(72, 64), 8);
    assert_eq!(pitch_at_row(48, 72, 0), 72);
    assert_eq!(pitch_at_row(48, 72, 8), 64);
}

#[test]
fn rows_outside_the_window_clamp_to_its_edges() {
    assert_eq!(pitch_at_row(48, 72, -5), 72);
    assert_eq!(pitch_at_row(48, 72, 100), 48);
}

#[test]
fn row_of_a_pitch_reads_back_as_that_pitch() {
    for p in 48u8..=72 {
        assert_eq!(pitch_at_row(48, 72, pitch_row(72, p) as i16), p);
    }
}

#[test]
fn dragged_pitch_follows_cursor_with_grab_offset() {
    let offset = grab_pitch_offset(64, 60);
    assert_eq!(offset, 4);
    assert_eq!(moved_pitch(60, offset, 48, 72), 64);
    assert_eq!(moved_pitch(62, offset, 48, 72), 66);
    assert_eq!(moved_pitch(70, offset, 48, 72), 72);
    assert_eq!(moved_pitch(40, offset, 48, 72), 48);
}

#[test]
fn black_keys() {
    assert!(!is_black_key(60));
    assert!(is_black_key(61));
    assert!(!is_black_key(64));
    assert!(is_black_key(70));
    for p in 0u8..=115 {
        assert_eq!(is_black_key(p), is_black_key(p + 12));
    }
}

#[test]
fn grid_lines() {
    assert_eq!(grid_line(0, 4, 0), GridLine::Bar);
    assert_eq!(grid_line(4, 4, 1), GridLine::Beat);
    assert_eq!(grid_line(16, 4, 4), GridLine::Bar);
    assert_eq!(grid_line(2, 4, 0), GridLine::Subdivision);
    assert_eq!(grid_line(-4, 4, -1), GridLine::Beat);
    assert_eq!(grid_line(-16, 4, -4), GridLine::Bar);
    assert_eq!(grid_line(-3, 4, 0), GridLine::Subdivision);
    // Fewer than one step per beat counts as one step.
    assert_eq!(grid_line(3, 0, 3), GridLine::Beat);
}
