use todo_iced_sqlite::notes::{Note, NoteId};
use todo_iced_sqlite::piano_grid::{
    topmost_hit, DragAction, GridAction, HitZone, Interaction, PianoGridMessage,
    PianoGridState, Pointer,
};

fn notes() -> Vec<Note<f32>> {
    vec![
        Note { id: NoteId(0), pitch: 64, start: 0.0, duration: 1.0, velocity: 0.9 },
        Note { id: NoteId(1), pitch: 67, start: 1.0, duration: 1.5, velocity: 0.75 },
        Note { id: NoteId(2), pitch: 71, start: 2.5, duration: 0.75, velocity: 0.8 },
    ]
}

fn pointer(row: i16, beat: f32, snapped_beat: f32) -> Option<Pointer<f32>> {
    Some(Pointer { row, beat, snapped_beat })
}

#[test]
fn topmost_note_wins_the_hit_test() {
    assert_eq!(topmost_hit(&[Some(HitZone::Body), None, Some(HitZone::RightEdge)]), Some((2, HitZone::RightEdge)));
    assert_eq!(topmost_hit(&[Some(HitZone::Body), Some(HitZone::Body), None]), Some((1, HitZone::Body)));
    assert_eq!(topmost_hit(&[None, None]), None);
    assert_eq!(topmost_hit(&[]), None);
}

#[test]
fn pressing_empty_space_starts_a_new_note() {
    let mut state = PianoGridState::default();
    let action = state.on_press(&notes(), &[None, None, None], pointer(10, 3.1, 3.0), 48, 72, |b, s| b - s);
    assert!(matches!(action, Some(GridAction::Publish(PianoGridMessage::SelectionCleared))));
    assert!(matches!(
        state.drag,
        Some(DragAction::Creating { pitch: 62, start_beat, current_beat }) if start_beat == 3.0 && current_beat == 3.0
    ));
}

#[test]
fn pressing_a_note_body_starts_a_move() {
    let mut state = PianoGridState::default();
    let hits = [None, Some(HitZone::Body), None];
    // row 6 of 48..=72 is pitch 66; the note sits at 67
    let action = state.on_press(&notes(), &hits, pointer(6, 1.75, 1.75), 48, 72, |b, s| b - s);
    assert!(matches!(action, Some(GridAction::Publish(PianoGridMessage::NoteSelected(NoteId(1))))));
    assert!(matches!(
        state.drag,
        Some(DragAction::Moving { id: NoteId(1), grab_offset_beats, pitch_offset: 1 }) if grab_offset_beats == 0.75
    ));
}

#[test]
fn pressing_a_note_edge_starts_a_resize() {
    let mut state = PianoGridState::default();
    let hits = [Some(HitZone::Body), None, Some(HitZone::RightEdge)];
    let action = state.on_press(&notes(), &hits, pointer(1, 3.2, 3.25), 48, 72, |b, s| b - s);
    assert!(matches!(action, Some(GridAction::Publish(PianoGridMessage::NoteSelected(NoteId(2))))));
    assert!(matches!(
        state.drag,
        Some(DragAction::Resizing { id: NoteId(2), start_beat }) if start_beat == 2.5
    ));
}

#[test]
fn pressing_outside_the_widget_does_nothing() {
    let mut state = PianoGridState::default();
    let action = state.on_press(&notes(), &[None, None, None], None, 48, 72, |b, s| b - s);
    assert!(action.is_none());
    assert!(state.drag.is_none());
}

#[test]
fn moving_a_grabbed_note_publishes_its_new_place() {
    let mut state = PianoGridState {
        drag: Some(DragAction::Moving { id: NoteId(1), grab_offset_beats: 0.5, pitch_offset: 1 }),
    };
    let action = state.on_cursor_moved(pointer(10, 4.0, 4.0), 48, 72, |b, g| b - g, |b, s| b - s);
    match action {
        Some(GridAction::Publish(PianoGridMessage::NoteMoved { id, new_pitch, new_start })) => {
            assert_eq!(id, NoteId(1));
            assert_eq!(new_pitch, 63);
            assert_eq!(new_start, 3.5);
        }
        _ => panic!("expected a move"),
    }
    // dragged above the window: the pitch stops at the top
    let action = state.on_cursor_moved(pointer(-20, 4.0, 4.0), 48, 72, |b, g| b - g, |b, s| b - s);
    assert!(matches!(action, Some(GridAction::Publish(PianoGridMessage::NoteMoved { new_pitch: 72, .. }))));
    assert!(matches!(state.drag, Some(DragAction::Moving { id: NoteId(1), .. })));
}

#[test]
fn moving_while_resizing_publishes_the_new_length() {
    let mut state = PianoGridState {
        drag: Some(DragAction::Resizing { id: NoteId(2), start_beat: 2.5 }),
    };
    let action = state.on_cursor_moved(pointer(0, 4.0, 4.0), 48, 72, |b, g| b - g, |b, s| (b - s).max(0.25));
    match action {
        Some(GridAction::Publish(PianoGridMessage::NoteResized { id, new_duration })) => {
            assert_eq!(id, NoteId(2));
            assert_eq!(new_duration, 1.5);
        }
        _ => panic!("expected a resize"),
    }
}

#[test]
fn moving_while_creating_follows_the_snapped_beat() {
    let mut state = PianoGridState {
        drag: Some(DragAction::Creating { pitch: 60, start_beat: 1.0, current_beat: 1.0 }),
    };
    let action = state.on_cursor_moved(pointer(0, 2.6, 2.5), 48, 72, |b, g| b - g, |b, s| b - s);
    assert!(matches!(action, Some(GridAction::Redraw)));
    assert!(matches!(
        state.drag,
        Some(DragAction::Creating { pitch: 60, start_beat, current_beat }) if start_beat == 1.0 && current_beat == 2.5
    ));
}

#[test]
fn moving_without_a_drag_or_outside_does_nothing() {
    let mut idle: PianoGridState<f32> = PianoGridState::default();
    assert!(idle.on_cursor_moved(pointer(0, 1.0, 1.0), 48, 72, |b, g| b - g, |b, s| b - s).is_none());
    let mut dragging = PianoGridState {
        drag: Some(DragAction::Resizing { id: NoteId(0), start_beat: 0.0f32 }),
    };
    assert!(dragging.on_cursor_moved(None, 48, 72, |b, g| b - g, |b, s| b - s).is_none());
    assert!(dragging.drag.is_some());
}

#[test]
fn releasing_a_creation_publishes_the_new_note() {
    let mut state = PianoGridState {
        drag: Some(DragAction::Creating { pitch: 60, start_beat: 3.0f32, current_beat: 1.0 }),
    };
    let action = state.on_release(|a, b| {
        let (s, e) = if a <= b { (a, b) } else { (b, a) };
        (s, (e - s).max(0.25))
    });
    match action {
        Some(GridAction::Publish(PianoGridMessage::NoteCreated { pitch, start, duration })) => {
            assert_eq!(pitch, 60);
            assert_eq!(start, 1.0);
            assert_eq!(duration, 2.0);
        }
        _ => panic!("expected a new note"),
    }
    assert!(state.drag.is_none());
}

#[test]
fn releasing_other_drags_only_captures() {
    let mut state = PianoGridState {
        drag: Some(DragAction::Moving { id: NoteId(0), grab_offset_beats: 0.0f32, pitch_offset: 0 }),
    };
    assert!(matches!(state.on_release(|a, b| (a, b)), Some(GridAction::Capture)));
    assert!(state.drag.is_none());
    assert!(state.on_release(|a, b| (a, b)).is_none());
}

#[test]
fn click_on_empty_space_creates_a_note_one_step_long() {
    let mut state = PianoGridState::default();
    state.on_press(&notes(), &[None, None, None], pointer(12, 5.1, 5.0), 48, 72, |b, s| b - s);
    let action = state.on_release(|a, b| {
        let (s, e) = if a <= b { (a, b) } else { (b, a) };
        (s, (e - s).max(0.25))
    });
    match action {
        Some(GridAction::Publish(PianoGridMessage::NoteCreated { pitch, start, duration })) => {
            assert_eq!(pitch, 60);
            assert_eq!(start, 5.0);
            assert_eq!(duration, 0.25);
        }
        _ => panic!("expected a new note"),
    }
}

#[test]
fn cursor_shapes() {
    let idle: PianoGridState<f32> = PianoGridState::default();
    assert_eq!(idle.interaction(None), Interaction::Idle);
    assert_eq!(idle.interaction(Some(None)), Interaction::Crosshair);
    assert_eq!(idle.interaction(Some(Some(HitZone::Body))), Interaction::Grab);
    assert_eq!(idle.interaction(Some(Some(HitZone::RightEdge))), Interaction::ResizingHorizontally);
    let moving = PianoGridState {
        drag: Some(DragAction::Moving { id: NoteId(0), grab_offset_beats: 0.0f32, pitch_offset: 0 }),
    };
    assert_eq!(moving.interaction(Some(Some(HitZone::RightEdge))), Interaction::Grabbing);
    let resizing = PianoGridState { drag: Some(DragAction::Resizing { id: NoteId(0), start_beat: 0.0f32 }) };
    assert_eq!(resizing.interaction(None), Interaction::ResizingHorizontally);
    let creating = PianoGridState {
        drag: Some(DragAction::Creating { pitch: 60, start_beat: 0.0f32, current_beat: 0.0 }),
    };
    assert_eq!(creating.interaction(Some(Some(HitZone::Body))), Interaction::Crosshair);
}

#[test]
fn dragging_on_empty_space_creates_a_note_up_to_the_last_position() {
    let mut state = PianoGridState::default();
    state.on_press(&notes(), &[None, None, None], pointer(12, 1.1, 1.0), 48, 72, |b, s| b - s);
    let moves = [pointer(3, 2.2, 2.25), None, pointer(0, 3.9, 4.0), None];
    for p in moves {
        state.on_cursor_moved(p, 48, 72, |b, g| b - g, |b, s| b - s);
    }
    assert!(matches!(
        state.drag,
        Some(DragAction::Creating { pitch: 60, start_beat, current_beat }) if start_beat == 1.0 && current_beat == 4.0
    ));
    let action = state.on_release(|a, b| {
        let (s, e) = if a <= b { (a, b) } else { (b, a) };
        (s, (e - s).max(0.25))
    });
    match action {
        Some(GridAction::Publish(PianoGridMessage::NoteCreated { pitch, start, duration })) => {
            assert_eq!(pitch, 60);
            assert_eq!(start, 1.0);
            assert_eq!(duration, 3.0);
        }
        _ => panic!("expected a new note"),
    }
}

#[test]
fn every_move_of_a_grabbed_note_names_that_note() {
    let mut state = PianoGridState::default();
    let hits = [Some(HitZone::Body), None, None];
    state.on_press(&notes(), &hits, pointer(8, 0.5, 0.5), 48, 72, |b, s| b - s);
    for row in [0i16, 5, 30, -3] {
        let action = state.on_cursor_moved(pointer(row, 2.0, 2.0), 48, 72, |b, g| b - g, |b, s| b - s);
        assert!(matches!(action, Some(GridAction::Publish(PianoGridMessage::NoteMoved { id: NoteId(0), .. }))));
    }
}

#[test]
fn edge_presses_and_resizes_do_not_read_the_window() {
    // An inverted window only matters where a pitch is read from the cursor.
    let mut state = PianoGridState::default();
    let hits = [None, None, Some(HitZone::RightEdge)];
    let action = state.on_press(&notes(), &hits, pointer(1, 3.2, 3.25), 72, 48, |b, s| b - s);
    assert!(matches!(action, Some(GridAction::Publish(PianoGridMessage::NoteSelected(NoteId(2))))));
    let action = state.on_cursor_moved(pointer(1, 4.0, 4.0), 72, 48, |b, g| b - g, |b, s| b - s);
    assert!(matches!(action, Some(GridAction::Publish(PianoGridMessage::NoteResized { id: NoteId(2), .. }))));
}
