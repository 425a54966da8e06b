use todo_iced_sqlite::notes::{find_note, Note, NoteBoard, NoteId};
use todo_iced_sqlite::piano_grid::PianoGridMessage;

fn board_with_three_notes() -> NoteBoard<f32> {
    let mut board = NoteBoard::new(48, 72);
    board.create_note(64, 0.0, 1.0, 0.9);
    board.create_note(67, 1.0, 1.5, 0.75);
    board.create_note(71, 2.5, 0.75, 0.8);
    board
}

#[test]
fn created_notes_get_fresh_ids_and_are_selected() {
    let mut board: NoteBoard<f32> = NoteBoard::new(48, 72);
    assert_eq!(board.next_note_id(), 0);
    assert_eq!(board.selected_note(), None);
    let a = board.create_note(64, 0.0, 1.0, 0.9);
    let b = board.create_note(67, 1.0, 1.5, 0.75);
    assert_eq!(a, NoteId(0));
    assert_eq!(b, NoteId(1));
    assert_ne!(a, b);
    assert_eq!(board.next_note_id(), 2);
    assert_eq!(board.selected_note(), Some(b));
    assert_eq!(board.notes().len(), 2);
    assert_eq!(board.notes()[1].pitch, 67);
    assert_eq!(board.notes()[1].start, 1.0);
}

#[test]
fn moving_clamps_pitch_to_window_and_selects() {
    let mut board = board_with_three_notes();
    board.clear_selection();
    board.move_note(NoteId(0), 100, 3.0);
    assert_eq!(board.notes()[0].pitch, 72);
    assert_eq!(board.notes()[0].start, 3.0);
    assert_eq!(board.selected_note(), Some(NoteId(0)));
    board.move_note(NoteId(0), 10, 0.5);
    assert_eq!(board.notes()[0].pitch, 48);
    board.move_note(NoteId(0), 60, 0.5);
    assert_eq!(board.notes()[0].pitch, 60);
    // other notes untouched
    assert_eq!(board.notes()[1].pitch, 67);
    assert_eq!(board.notes()[2].pitch, 71);
}

#[test]
fn moving_or_resizing_an_unknown_note_changes_nothing() {
    let mut board = board_with_three_notes();
    board.clear_selection();
    board.move_note(NoteId(9), 60, 0.0);
    board.resize_note(NoteId(9), 4.0);
    assert_eq!(board.selected_note(), None);
    assert_eq!(board.notes()[0].pitch, 64);
    assert_eq!(board.notes()[0].start, 0.0);
    assert_eq!(board.notes()[0].duration, 1.0);
}

#[test]
fn resizing_sets_length_and_selects() {
    let mut board = board_with_three_notes();
    board.resize_note(NoteId(1), 2.25);
    assert_eq!(board.notes()[1].duration, 2.25);
    assert_eq!(board.notes()[1].start, 1.0);
    assert_eq!(board.selected_note(), Some(NoteId(1)));
}

#[test]
fn selecting_and_clearing() {
    let mut board = board_with_three_notes();
    board.select_note(NoteId(1));
    assert_eq!(board.selected_note(), Some(NoteId(1)));
    assert_eq!(board.selected().map(|n| n.pitch), Some(67));
    board.select_note(NoteId(42));
    assert!(board.selected().is_none());
    board.clear_selection();
    assert_eq!(board.selected_note(), None);
    assert!(board.selected().is_none());
}

#[test]
fn scrolling_the_board_moves_only_the_window() {
    let mut board = board_with_three_notes();
    board.scroll_pitch(2);
    assert_eq!((board.lowest_pitch(), board.highest_pitch()), (50, 74));
    board.scroll_pitch(-100);
    assert_eq!((board.lowest_pitch(), board.highest_pitch()), (0, 24));
    board.scroll_pitch(1000);
    assert_eq!((board.lowest_pitch(), board.highest_pitch()), (103, 127));
    assert_eq!(board.notes()[0].pitch, 64);
}

#[test]
fn finding_notes_by_id() {
    let notes = vec![
        Note { id: NoteId(3), pitch: 60, start: 0.0f32, duration: 1.0, velocity: 0.5 },
        Note { id: NoteId(5), pitch: 62, start: 1.0, duration: 1.0, velocity: 0.5 },
        Note { id: NoteId(5), pitch: 64, start: 2.0, duration: 1.0, velocity: 0.5 },
    ];
    assert_eq!(find_note(&notes, NoteId(3)), Some(0));
    assert_eq!(find_note(&notes, NoteId(5)), Some(1));
    assert_eq!(find_note(&notes, NoteId(7)), None);
}

fn apply(board: &mut NoteBoard<f32>, message: PianoGridMessage<f32>) {
    board.apply_message(
        message,
        0.8,
        |s: f32| s.max(0.0),
        |d: f32| d.max(0.25),
        |dy: f32| (-dy.round()) as i16,
    );
}

#[test]
fn grid_messages_edit_the_board() {
    let mut board = board_with_three_notes();
    apply(&mut board, PianoGridMessage::NoteCreated { pitch: 60, start: -1.0, duration: 0.1 });
    assert_eq!(board.notes().len(), 4);
    let created = &board.notes()[3];
    assert_eq!(created.id, NoteId(3));
    assert_eq!(created.pitch, 60);
    assert_eq!(created.start, 0.0);
    assert_eq!(created.duration, 0.25);
    assert_eq!(created.velocity, 0.8);
    assert_eq!(board.selected_note(), Some(NoteId(3)));

    apply(&mut board, PianoGridMessage::NoteMoved { id: NoteId(0), new_pitch: 90, new_start: -2.0 });
    assert_eq!(board.notes()[0].pitch, 72);
    assert_eq!(board.notes()[0].start, 0.0);
    assert_eq!(board.selected_note(), Some(NoteId(0)));

    apply(&mut board, PianoGridMessage::NoteResized { id: NoteId(1), new_duration: 0.0 });
    assert_eq!(board.notes()[1].duration, 0.25);

    apply(&mut board, PianoGridMessage::SelectionCleared);
    assert_eq!(board.selected_note(), None);
    apply(&mut board, PianoGridMessage::NoteSelected(NoteId(2)));
    assert_eq!(board.selected_note(), Some(NoteId(2)));

    apply(&mut board, PianoGridMessage::Scrolled { delta_x: 0.0, delta_y: -2.0 });
    assert_eq!((board.lowest_pitch(), board.highest_pitch()), (50, 74));
    assert_eq!(board.notes().len(), 4);
    assert_eq!(board.next_note_id(), 4);
}
