//! How the piano-grid widget reacts to the mouse.
//!
//! The widget keeps one piece of state, the drag in progress.  Beat values
//! (positions and lengths along the time axis) have the type `B`; every
//! computation on them is handed in by the caller as a closure, and the
//! contracts say which closure produced which value.  What is decided here is
//! which drag starts, how it follows the cursor, which message it publishes,
//! and which pitch a note lands on.

use vstd::prelude::*;
use crate::notes::{Note, NoteId, find_note};
use crate::pitch::{clamp, grab_pitch_offset, pitch_at_row, moved_pitch};

verus! {

/// Which part of a note the cursor is over.
#[derive(Debug, Clone, Copy, PartialEq, Eq, Structural)]
pub enum HitZone {
    /// The body: pressing there moves the note.
    Body,
    /// The right edge: pressing there resizes the note.
    RightEdge,
}

/// The note drawn on top among those the cursor is over: notes later in the
/// list are drawn later, so the last hit wins.
pub fn topmost_hit(hits: &[Option<HitZone>]) -> (r: Option<(usize, HitZone)>)
    ensures
        match r {
            Some((i, zone)) => {
                &&& i < hits@.len()
                &&& hits@[i as int] == Some(zone)
                &&& forall|j: int| i < j < hits@.len() ==> (#[trigger] hits@[j]) is None
            },
            None => forall|j: int| 0 <= j < hits@.len() ==> (#[trigger] hits@[j]) is None,
        },
{
    let mut i: usize = hits.len();
    while i > 0
        invariant
            i <= hits@.len(),
            forall|j: int| i <= j < hits@.len() ==> (#[trigger] hits@[j]) is None,
        decreases i,
    {
        i = i - 1;
        match hits[i] {
            Some(zone) => {
                return Some((i, zone));
            },
            None => {},
        }
    }
    None
}

/// A drag in progress.
#[derive(Debug, Clone, Copy)]
pub enum DragAction<B> {
    /// Creating a new note by pressing on empty space and dragging.
    Creating { pitch: u8, start_beat: B, current_beat: B },
    /// Moving an existing note.
    Moving { id: NoteId, grab_offset_beats: B, pitch_offset: i16 },
    /// Resizing a note from its right edge.
    Resizing { id: NoteId, start_beat: B },
}

/// The messages the widget emits; the application handles them.
#[derive(Debug, Clone, Copy)]
pub enum PianoGridMessage<B> {
    NoteCreated { pitch: u8, start: B, duration: B },
    NoteMoved { id: NoteId, new_pitch: u8, new_start: B },
    NoteResized { id: NoteId, new_duration: B },
    NoteSelected(NoteId),
    SelectionCleared,
    Scrolled { delta_x: B, delta_y: B },
}

/// What the widget does with an event it handles.  Every handled event is
/// also captured, so that no other widget sees it.
pub enum GridAction<B> {
    /// Publish a message.
    Publish(PianoGridMessage<B>),
    /// Draw the widget again.
    Redraw,
    /// Only capture the event.
    Capture,
}

/// Where the cursor is, in the widget's terms: the pitch row under it
/// (counted from the top), the beat under it, and that beat snapped to the
/// grid.
#[derive(Debug, Clone, Copy)]
pub struct Pointer<B> {
    pub row: i16,
    pub beat: B,
    pub snapped_beat: B,
}

/// The cursor shape the widget asks for.
#[derive(Debug, Clone, Copy, PartialEq, Eq, Structural)]
pub enum Interaction {
    /// The default cursor: the cursor is outside the widget.
    Idle,
    Grab,
    Grabbing,
    ResizingHorizontally,
    Crosshair,
}

/// The pitch under a pointer at row `row` of the window `lowest..=highest`.
pub open spec fn pitch_of_row(lowest: u8, highest: u8, row: i16) -> u8 {
    clamp(highest - row, lowest as int, highest as int) as u8
}

/// Rows are drawn from the window's top pitch down: in every window
/// `lowest..=highest`, the pitch under row `row` (counted from the top) is
/// `highest - row` while the row lies inside the window, rows above it give
/// `highest` and rows below it give `lowest`; so the pitch under the row on
/// which pitch `p` is drawn is `p` itself.
pub proof fn lemma_pitch_under_row_is_drawn_pitch(lowest: u8, highest: u8, row: i16, p: u8)
    requires
        lowest <= highest,
    ensures
        0 <= row <= highest - lowest ==> pitch_of_row(lowest, highest, row) == highest - row,
        row < 0 ==> pitch_of_row(lowest, highest, row) == highest,
        row > highest - lowest ==> pitch_of_row(lowest, highest, row) == lowest,
        lowest <= pitch_of_row(lowest, highest, row) <= highest,
        lowest <= p <= highest ==> pitch_of_row(lowest, highest, (highest - p) as i16) == p,
{
}

/// A row that maps to a pitch without overflow.
pub open spec fn row_in_range(highest: u8, row: i16) -> bool {
    highest - row <= i16::MAX
}

/// The widget's own state: the drag in progress, if any.
#[derive(Debug)]
pub struct PianoGridState<B> {
    pub drag: Option<DragAction<B>>,
}

impl<B> Default for PianoGridState<B> {
    fn default() -> (r: Self)
        ensures
            r.drag is None,
    {
        PianoGridState { drag: None }
    }
}

impl<B: Copy> PianoGridState<B> {
    /// The left button went down.  `pointer` is `None` when the cursor is
    /// outside the widget, and `hits[i]` tells which part of `notes[i]` the
    /// cursor is over.
    ///
    /// On a note's body a move starts and the note is selected; `grab` gives
    /// the offset between the cursor's beat and the note's start.  On a
    /// note's right edge a resize starts and the note is selected.  On empty
    /// space the creation of a note starts at the snapped beat and the
    /// selection is cleared.
    pub fn on_press<F>(
        &mut self,
        notes: &[Note<B>],
        hits: &[Option<HitZone>],
        pointer: Option<Pointer<B>>,
        lowest: u8,
        highest: u8,
        grab: F,
    ) -> (r: Option<GridAction<B>>) where F: Fn(B, B) -> B
        requires
            hits@.len() == notes@.len(),
            pointer matches Some(p) ==> (!(topmost_hit_spec(hits@) matches Some(
                (_, HitZone::RightEdge),
            )) ==> lowest <= highest && row_in_range(highest, p.row)),
            forall|beat: B, start: B| grab.requires((beat, start)),
        ensures
            pointer is Some ==> drag_in_window(final(self).drag, lowest, highest),
            drag_in_window(old(self).drag, lowest, highest) ==> drag_in_window(
                final(self).drag,
                lowest,
                highest,
            ),
            match pointer {
                None => r is None && final(self).drag == old(self).drag,
                Some(p) => {
                    let pitch = pitch_of_row(lowest, highest, p.row);
                    match topmost_hit_spec(hits@) {
                        None => {
                            &&& r == Some(GridAction::Publish(PianoGridMessage::<B>::SelectionCleared))
                            &&& 0 <= p.row <= highest - lowest ==> pitch == highest - p.row
                            &&& final(self).drag == Some(
                                DragAction::Creating {
                                    pitch,
                                    start_beat: p.snapped_beat,
                                    current_beat: p.snapped_beat,
                                },
                            )
                        },
                        Some((i, zone)) => {
                            let id = notes@[i].id;
                            let k = first_note_with(notes@, id);
                            let note = notes@[k];
                            &&& r == Some(GridAction::Publish(PianoGridMessage::<B>::NoteSelected(id)))
                            &&& zone == HitZone::RightEdge ==> final(self).drag == Some(
                                DragAction::Resizing { id, start_beat: note.start },
                            )
                            &&& zone == HitZone::Body ==> (final(self).drag matches Some(
                                DragAction::Moving { id: mid, grab_offset_beats: g, pitch_offset },
                            ) && mid == id && pitch_offset == note.pitch - pitch && call_ensures(
                                grab,
                                (p.beat, note.start),
                                g,
                            ))
                        },
                    }
                },
            },
    {
        let p = match pointer {
            None => {
                return None;
            },
            Some(p) => p,
        };
        let hit = topmost_hit(hits);
        proof {
            if hit is None {
                lemma_topmost_hit_spec_none(hits@);
            }
        }
        match hit {
            None => {
                let pitch = pitch_at_row(lowest, highest, p.row);
                self.drag = Some(
                    DragAction::Creating {
                        pitch,
                        start_beat: p.snapped_beat,
                        current_beat: p.snapped_beat,
                    },
                );
                Some(GridAction::Publish(PianoGridMessage::SelectionCleared))
            },
            Some((i, zone)) => {
                let id = notes[i].id;
                proof {
                    lemma_topmost_hit_spec(hits@, i as int, zone);
                    assert(notes@[i as int].id == id);
                }
                let k = match find_note(notes, id) {
                    Some(k) => k,
                    None => {
                        return None;
                    },
                };
                proof {
                    lemma_first_note_with(notes@, id, k as int);
                }
                let note = &notes[k];
                match zone {
                    HitZone::Body => {
                        let pitch = pitch_at_row(lowest, highest, p.row);
                        let g = grab(p.beat, note.start);
                        self.drag = Some(
                            DragAction::Moving {
                                id,
                                grab_offset_beats: g,
                                pitch_offset: grab_pitch_offset(note.pitch, pitch),
                            },
                        );
                    },
                    HitZone::RightEdge => {
                        self.drag = Some(DragAction::Resizing { id, start_beat: note.start });
                    },
                }
                Some(GridAction::Publish(PianoGridMessage::NoteSelected(id)))
            },
        }
    }

    /// The cursor moved.  `pointer` is `None` when the cursor is outside the
    /// widget.
    ///
    /// A move publishes the grabbed note at the pitch under the cursor plus
    /// the grab's pitch offset (kept inside the window) and at the start that
    /// `move_start` gives from the cursor's beat and the grab offset.  A resize
    /// publishes the length that `resize_length` gives from the cursor's beat
    /// and the note's start.  A creation follows the snapped beat and asks for
    /// a redraw.  Without a drag, or with the cursor outside, nothing happens.
    pub fn on_cursor_moved<F, G>(
        &mut self,
        pointer: Option<Pointer<B>>,
        lowest: u8,
        highest: u8,
        move_start: F,
        resize_length: G,
    ) -> (r: Option<GridAction<B>>) where F: Fn(B, B) -> B, G: Fn(B, B) -> B
        requires
            pointer matches Some(p) ==> (old(self).drag matches Some(
                DragAction::Moving { pitch_offset, .. },
            ) ==> {
                &&& lowest <= highest
                &&& row_in_range(highest, p.row)
                &&& pitch_of_row(lowest, highest, p.row) + pitch_offset <= i16::MAX
            }),
            forall|beat: B, offset: B| move_start.requires((beat, offset)),
            forall|beat: B, start: B| resize_length.requires((beat, start)),
        ensures
            final(self).drag == drag_after_move(old(self).drag, pointer),
            drag_in_window(old(self).drag, lowest, highest) ==> drag_in_window(
                final(self).drag,
                lowest,
                highest,
            ),
            r matches Some(GridAction::Publish(PianoGridMessage::NoteMoved { new_pitch, .. }))
                ==> lowest <= new_pitch <= highest,
            match (old(self).drag, pointer) {
                (None, _) => r is None && final(self).drag == old(self).drag,
                (Some(_), None) => r is None && final(self).drag == old(self).drag,
                (
                    Some(DragAction::Moving { id, grab_offset_beats, pitch_offset }),
                    Some(p),
                ) => {
                    &&& final(self).drag == old(self).drag
                    &&& r matches Some(
                        GridAction::Publish(
                            PianoGridMessage::NoteMoved { id: mid, new_pitch, new_start },
                        ),
                    )
                    &&& mid == id
                    &&& new_pitch == clamp(
                        pitch_of_row(lowest, highest, p.row) + pitch_offset,
                        lowest as int,
                        highest as int,
                    )
                    &&& call_ensures(move_start, (p.beat, grab_offset_beats), new_start)
                },
                (Some(DragAction::Resizing { id, start_beat }), Some(p)) => {
                    &&& final(self).drag == old(self).drag
                    &&& r matches Some(
                        GridAction::Publish(PianoGridMessage::NoteResized { id: rid, new_duration }),
                    )
                    &&& rid == id
                    &&& call_ensures(resize_length, (p.beat, start_beat), new_duration)
                },
                (Some(DragAction::Creating { pitch, start_beat, current_beat }), Some(p)) => {
                    &&& r == Some(GridAction::<B>::Redraw)
                    &&& final(self).drag == Some(
                        DragAction::Creating { pitch, start_beat, current_beat: p.snapped_beat },
                    )
                },
            },
    {
        match self.drag {
            None => None,
            Some(DragAction::Moving { id, grab_offset_beats, pitch_offset }) => {
                let p = match pointer {
                    None => {
                        return None;
                    },
                    Some(p) => p,
                };
                let cursor_pitch = pitch_at_row(lowest, highest, p.row);
                let new_pitch = moved_pitch(cursor_pitch as i16, pitch_offset, lowest, highest);
                let new_start = move_start(p.beat, grab_offset_beats);
                Some(GridAction::Publish(PianoGridMessage::NoteMoved { id, new_pitch, new_start }))
            },
            Some(DragAction::Resizing { id, start_beat }) => {
                let p = match pointer {
                    None => {
                        return None;
                    },
                    Some(p) => p,
                };
                let new_duration = resize_length(p.beat, start_beat);
                Some(GridAction::Publish(PianoGridMessage::NoteResized { id, new_duration }))
            },
            Some(DragAction::Creating { pitch, start_beat, current_beat: _ }) => {
                let p = match pointer {
                    None => {
                        return None;
                    },
                    Some(p) => p,
                };
                self.drag = Some(
                    DragAction::Creating { pitch, start_beat, current_beat: p.snapped_beat },
                );
                Some(GridAction::Redraw)
            },
        }
    }

    /// The left button went up: the drag ends.  A creation publishes the new
    /// note, with the start and length that `span` gives from the two beats the
    /// drag covered; any other drag is only captured; without a drag nothing
    /// happens.
    pub fn on_release<F>(&mut self, span: F) -> (r: Option<GridAction<B>>) where
        F: Fn(B, B) -> (B, B),

        requires
            forall|a: B, b: B| span.requires((a, b)),
        ensures
            final(self).drag is None,
            match old(self).drag {
                None => r is None,
                Some(DragAction::Creating { pitch, start_beat, current_beat }) => {
                    &&& r matches Some(
                        GridAction::Publish(
                            PianoGridMessage::NoteCreated { pitch: cpitch, start, duration },
                        ),
                    )
                    &&& cpitch == pitch
                    &&& call_ensures(span, (start_beat, current_beat), (start, duration))
                },
                Some(_) => r == Some(GridAction::<B>::Capture),
            },
    {
        let drag = self.drag;
        self.drag = None;
        match drag {
            Some(DragAction::Creating { pitch, start_beat, current_beat }) => {
                let (start, duration) = span(start_beat, current_beat);
                Some(GridAction::Publish(PianoGridMessage::NoteCreated { pitch, start, duration }))
            },
            Some(_) => Some(GridAction::Capture),
            None => None,
        }
    }

    /// The cursor shape: a drag decides it while it lasts; otherwise it
    /// follows what the cursor is over (`hover` is `None` when the cursor is
    /// outside the widget, else the topmost hit under it).
    pub fn interaction(&self, hover: Option<Option<HitZone>>) -> (r: Interaction)
        ensures
            r == match self.drag {
                Some(DragAction::Moving { .. }) => Interaction::Grabbing,
                Some(DragAction::Resizing { .. }) => Interaction::ResizingHorizontally,
                Some(DragAction::Creating { .. }) => Interaction::Crosshair,
                None => match hover {
                    None => Interaction::Idle,
                    Some(Some(HitZone::RightEdge)) => Interaction::ResizingHorizontally,
                    Some(Some(HitZone::Body)) => Interaction::Grab,
                    Some(None) => Interaction::Crosshair,
                },
            },
    {
        match self.drag {
            Some(DragAction::Moving { .. }) => Interaction::Grabbing,
            Some(DragAction::Resizing { .. }) => Interaction::ResizingHorizontally,
            Some(DragAction::Creating { .. }) => Interaction::Crosshair,
            None => match hover {
                None => Interaction::Idle,
                Some(Some(HitZone::RightEdge)) => Interaction::ResizingHorizontally,
                Some(Some(HitZone::Body)) => Interaction::Grab,
                Some(None) => Interaction::Crosshair,
            },
        }
    }
}

/// The drag after the cursor moved to `pointer`: a creation follows the
/// snapped beat under the cursor; every other drag stays as it is.
pub open spec fn drag_after_move<B>(drag: Option<DragAction<B>>, pointer: Option<Pointer<B>>) -> Option<
    DragAction<B>,
> {
    match (drag, pointer) {
        (Some(DragAction::Creating { pitch, start_beat, current_beat: _ }), Some(p)) => Some(
            DragAction::Creating { pitch, start_beat, current_beat: p.snapped_beat },
        ),
        _ => drag,
    }
}

/// The drag after the cursor moved through `pointers`, in order.
pub open spec fn drag_after_moves<B>(
    drag: Option<DragAction<B>>,
    pointers: Seq<Option<Pointer<B>>>,
) -> Option<DragAction<B>>
    decreases pointers.len(),
{
    if pointers.len() == 0 {
        drag
    } else {
        drag_after_move(drag_after_moves(drag, pointers.drop_last()), pointers.last())
    }
}

/// The snapped beat of the last of `pointers` that lay inside the widget, or
/// `otherwise` when none did.
pub open spec fn last_snapped_beat<B>(pointers: Seq<Option<Pointer<B>>>, otherwise: B) -> B
    decreases pointers.len(),
{
    if pointers.len() == 0 {
        otherwise
    } else {
        match pointers.last() {
            Some(p) => p.snapped_beat,
            None => last_snapped_beat(pointers.drop_last(), otherwise),
        }
    }
}

/// However the cursor moves during a drag, a creation keeps the pitch and the
/// beat it started at and reaches to the snapped beat of the last position
/// inside the widget, and a move or a resize keeps the note it holds (and its
/// grab offset or start).
pub proof fn lemma_drag_follows_cursor<B>(
    drag: Option<DragAction<B>>,
    pointers: Seq<Option<Pointer<B>>>,
)
    ensures
        match drag {
            Some(DragAction::Creating { pitch, start_beat, current_beat }) => drag_after_moves(
                drag,
                pointers,
            ) == Some(
                DragAction::Creating {
                    pitch,
                    start_beat,
                    current_beat: last_snapped_beat(pointers, current_beat),
                },
            ),
            _ => drag_after_moves(drag, pointers) == drag,
        },
    decreases pointers.len(),
{
    if pointers.len() > 0 {
        lemma_drag_follows_cursor(drag, pointers.drop_last());
    }
}

/// A drag that creates a note does so at a pitch inside the window
/// `lowest..=highest`.
pub open spec fn drag_in_window<B>(drag: Option<DragAction<B>>, lowest: u8, highest: u8) -> bool {
    drag matches Some(DragAction::Creating { pitch, .. }) ==> lowest <= pitch <= highest
}

/// While the window stays, a creation started inside it stays inside it
/// however the cursor moves, so the note it publishes on release (at the
/// creation's pitch) lies in the window.
pub proof fn lemma_creation_stays_in_window<B>(
    drag: Option<DragAction<B>>,
    pointers: Seq<Option<Pointer<B>>>,
    lowest: u8,
    highest: u8,
)
    requires
        drag_in_window(drag, lowest, highest),
    ensures
        drag_in_window(drag_after_moves(drag, pointers), lowest, highest),
    decreases pointers.len(),
{
    if pointers.len() > 0 {
        lemma_creation_stays_in_window(drag, pointers.drop_last(), lowest, highest);
    }
}

/// The note created last is drawn on top, so wherever the cursor is over it,
/// it is the note the cursor hits.
pub proof fn lemma_last_note_hit_first(hits: Seq<Option<HitZone>>, zone: HitZone)
    requires
        hits.len() > 0,
        hits.last() == Some(zone),
    ensures
        topmost_hit_spec(hits) == Some(((hits.len() - 1) as int, zone)),
{
}

/// The topmost hit of `hits`, as `topmost_hit` finds it.
pub open spec fn topmost_hit_spec(hits: Seq<Option<HitZone>>) -> Option<(int, HitZone)>
    decreases hits.len(),
{
    if hits.len() == 0 {
        None
    } else {
        match hits.last() {
            Some(zone) => Some(((hits.len() - 1) as int, zone)),
            None => topmost_hit_spec(hits.drop_last()),
        }
    }
}

proof fn lemma_topmost_hit_spec(hits: Seq<Option<HitZone>>, i: int, zone: HitZone)
    requires
        0 <= i < hits.len(),
        hits[i] == Some(zone),
        forall|j: int| i < j < hits.len() ==> (#[trigger] hits[j]) is None,
    ensures
        topmost_hit_spec(hits) == Some((i, zone)),
    decreases hits.len(),
{
    if i < hits.len() - 1 {
        assert(hits[hits.len() - 1] is None);
        let shorter = hits.drop_last();
        assert forall|j: int| i < j < shorter.len() implies (#[trigger] shorter[j]) is None by {
            assert(shorter[j] == hits[j]);
        }
        lemma_topmost_hit_spec(shorter, i, zone);
    }
}

proof fn lemma_topmost_hit_spec_none(hits: Seq<Option<HitZone>>)
    requires
        forall|j: int| 0 <= j < hits.len() ==> (#[trigger] hits[j]) is None,
    ensures
        topmost_hit_spec(hits) is None,
    decreases hits.len(),
{
    if hits.len() > 0 {
        assert(hits[hits.len() - 1] is None);
        let shorter = hits.drop_last();
        assert forall|j: int| 0 <= j < shorter.len() implies (#[trigger] shorter[j]) is None by {
            assert(shorter[j] == hits[j]);
        }
        lemma_topmost_hit_spec_none(shorter);
    }
}

/// The position of the first note of `notes` with the id `id`.
pub open spec fn first_note_with<B>(notes: Seq<Note<B>>, id: NoteId) -> int {
    choose|k: int|
        0 <= k < notes.len() && notes[k].id == id && forall|j: int|
            0 <= j < k ==> (#[trigger] notes[j]).id != id
}

proof fn lemma_first_note_with<B>(notes: Seq<Note<B>>, id: NoteId, k: int)
    requires
        0 <= k < notes.len(),
        notes[k].id == id,
        forall|j: int| 0 <= j < k ==> (#[trigger] notes[j]).id != id,
    ensures
        first_note_with(notes, id) == k,
{
    let c = first_note_with(notes, id);
    assert(0 <= c < notes.len() && notes[c].id == id && forall|j: int|
        0 <= j < c ==> (#[trigger] notes[j]).id != id);
    if c < k {
        assert(notes[c].id != id);
    }
    if k < c {
        assert(notes[k].id != id);
    }
}

} // verus!
