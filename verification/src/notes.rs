//! The notes of the piano roll and the edits the piano grid asks for.
//!
//! A note's timing (start, length, velocity) is carried as an opaque value of
//! type `B`: the board stores and replaces it but never computes with it.
//! Everything else about a note (its id, its pitch) is decided here.

use vstd::prelude::*;
use crate::piano_grid::PianoGridMessage;
use crate::pitch::{clamp, valid_window, shifted_window, shift_pitch_window, lemma_shift_keeps_window};

verus! {

/// Identifies a note on the board.
#[derive(Debug, Clone, Copy, PartialEq, Eq, Structural)]
pub struct NoteId(pub usize);

/// A note: its pitch (a MIDI note number) and its timing in beats.
#[derive(Debug, Clone)]
pub struct Note<B> {
    pub id: NoteId,
    pub pitch: u8,
    pub start: B,
    pub duration: B,
    pub velocity: B,
}

/// Whether some note of `notes` has the id `id`.
pub open spec fn has_note<B>(notes: Seq<Note<B>>, id: NoteId) -> bool {
    exists|j: int| 0 <= j < notes.len() && (#[trigger] notes[j]).id == id
}

/// The position of the first note of `notes` with the id `id`.
pub fn find_note<B>(notes: &[Note<B>], id: NoteId) -> (r: Option<usize>)
    ensures
        match r {
            Some(i) => {
                &&& i < notes@.len()
                &&& notes@[i as int].id == id
                &&& forall|j: int| 0 <= j < i ==> (#[trigger] notes@[j]).id != id
            },
            None => !has_note(notes@, id),
        },
{
    let mut i: usize = 0;
    while i < notes.len()
        invariant
            i <= notes@.len(),
            forall|j: int| 0 <= j < i ==> (#[trigger] notes@[j]).id != id,
        decreases notes@.len() - i,
    {
        if notes[i].id.0 == id.0 {
            return Some(i);
        }
        i = i + 1;
    }
    None
}

/// The board `after` is `before` with the note `id` moved to `new_pitch`
/// (clamped into the window) and `new_start`, and selected; when no note has
/// that id, `after` is `before`.
pub open spec fn moved_note<B>(
    before: NoteBoard<B>,
    after: NoteBoard<B>,
    id: NoteId,
    new_pitch: u8,
    new_start: B,
) -> bool {
    &&& after.lowest() == before.lowest()
    &&& after.highest() == before.highest()
    &&& after.next_id() == before.next_id()
    &&& !has_note(before.notes_view(), id) ==> after == before
    &&& has_note(before.notes_view(), id) ==> {
        &&& after.selection() == Some(id)
        &&& after.notes_view().len() == before.notes_view().len()
        &&& forall|i: int|
            0 <= i < before.notes_view().len() ==> {
                let b = #[trigger] before.notes_view()[i];
                let a = after.notes_view()[i];
                if b.id == id {
                    a == Note {
                        pitch: clamp(
                            new_pitch as int,
                            before.lowest() as int,
                            before.highest() as int,
                        ) as u8,
                        start: new_start,
                        ..b
                    }
                } else {
                    a == b
                }
            }
    }
}

/// The board `after` is `before` with the note `id` given the length
/// `new_duration`, and selected; when no note has that id, `after` is
/// `before`.
pub open spec fn resized_note<B>(
    before: NoteBoard<B>,
    after: NoteBoard<B>,
    id: NoteId,
    new_duration: B,
) -> bool {
    &&& after.lowest() == before.lowest()
    &&& after.highest() == before.highest()
    &&& after.next_id() == before.next_id()
    &&& !has_note(before.notes_view(), id) ==> after == before
    &&& has_note(before.notes_view(), id) ==> {
        &&& after.selection() == Some(id)
        &&& after.notes_view().len() == before.notes_view().len()
        &&& forall|i: int|
            0 <= i < before.notes_view().len() ==> {
                let b = #[trigger] before.notes_view()[i];
                let a = after.notes_view()[i];
                if b.id == id {
                    a == Note { duration: new_duration, ..b }
                } else {
                    a == b
                }
            }
    }
}

/// The notes of the piano roll together with the window of visible pitches,
/// the selection, and the id the next new note receives.
pub struct NoteBoard<B> {
    notes: Vec<Note<B>>,
    lowest_pitch: u8,
    highest_pitch: u8,
    selected_note: Option<NoteId>,
    next_note_id: usize,
}

impl<B> NoteBoard<B> {
    /// The notes, in the order they were created (later notes are drawn on top).
    pub closed spec fn notes_view(&self) -> Seq<Note<B>> {
        self.notes@
    }

    /// The lowest visible pitch.
    pub closed spec fn lowest(&self) -> u8 {
        self.lowest_pitch
    }

    /// The highest visible pitch.
    pub closed spec fn highest(&self) -> u8 {
        self.highest_pitch
    }

    /// The selected note, if any.
    pub closed spec fn selection(&self) -> Option<NoteId> {
        self.selected_note
    }

    /// The id the next created note receives.
    pub closed spec fn next_id(&self) -> usize {
        self.next_note_id
    }

    /// The board's invariant: the window lies in the MIDI range, every note's
    /// id was handed out before (so it is below the next id), and no two
    /// notes share an id.
    pub open spec fn wf(&self) -> bool {
        &&& valid_window(self.lowest() as int, self.highest() as int)
        &&& forall|i: int|
            0 <= i < self.notes_view().len() ==> (#[trigger] self.notes_view()[i]).id.0
                < self.next_id()
        &&& forall|i: int, j: int|
            0 <= i < j < self.notes_view().len() ==> (#[trigger] self.notes_view()[i]).id != (
            #[trigger] self.notes_view()[j]).id
    }

    /// An empty board showing the pitches `lowest..=highest`.
    pub fn new(lowest: u8, highest: u8) -> (r: Self)
        requires
            valid_window(lowest as int, highest as int),
        ensures
            r.wf(),
            r.notes_view() == Seq::<Note<B>>::empty(),
            r.lowest() == lowest,
            r.highest() == highest,
            r.selection() is None,
            r.next_id() == 0,
    {
        NoteBoard {
            notes: Vec::new(),
            lowest_pitch: lowest,
            highest_pitch: highest,
            selected_note: None,
            next_note_id: 0,
        }
    }

    /// The notes, oldest first.
    pub fn notes(&self) -> (r: &Vec<Note<B>>)
        ensures
            r@ == self.notes_view(),
    {
        &self.notes
    }

    /// The lowest visible pitch.
    pub fn lowest_pitch(&self) -> (r: u8)
        ensures
            r == self.lowest(),
    {
        self.lowest_pitch
    }

    /// The highest visible pitch.
    pub fn highest_pitch(&self) -> (r: u8)
        ensures
            r == self.highest(),
    {
        self.highest_pitch
    }

    /// The id of the selected note, if any.
    pub fn selected_note(&self) -> (r: Option<NoteId>)
        ensures
            r == self.selection(),
    {
        self.selected_note
    }

    /// The id the next created note receives.
    pub fn next_note_id(&self) -> (r: usize)
        ensures
            r == self.next_id(),
    {
        self.next_note_id
    }

    /// The selected note, when one is selected and it is on the board.
    pub fn selected(&self) -> (r: Option<&Note<B>>)
        requires
            self.wf(),
        ensures
            match self.selection() {
                None => r is None,
                Some(id) => match r {
                    None => !has_note(self.notes_view(), id),
                    Some(note) => exists|i: int|
                        0 <= i < self.notes_view().len() && *note == self.notes_view()[i]
                            && note.id == id,
                },
            },
    {
        match self.selected_note {
            None => None,
            Some(id) => {
                let found = find_note(self.notes.as_slice(), id);
                match found {
                    Some(i) => {
                        let note = &self.notes[i];
                        assert(*note == self.notes_view()[i as int]);
                        Some(note)
                    },
                    None => None,
                }
            },
        }
    }

    /// Adds a note at `pitch` with the given timing, gives it a fresh id and
    /// selects it.  The new note is the last one, so it is drawn on top.
    pub fn create_note(&mut self, pitch: u8, start: B, duration: B, velocity: B) -> (id: NoteId)
        requires
            old(self).wf(),
            old(self).next_id() < usize::MAX,
        ensures
            final(self).wf(),
            id == NoteId(old(self).next_id()),
            !has_note(old(self).notes_view(), id),
            final(self).notes_view() == old(self).notes_view().push(
                Note { id, pitch, start, duration, velocity },
            ),
            final(self).next_id() == old(self).next_id() + 1,
            final(self).selection() == Some(id),
            final(self).lowest() == old(self).lowest(),
            final(self).highest() == old(self).highest(),
    {
        let id = NoteId(self.next_note_id);
        self.next_note_id = self.next_note_id + 1;
        self.notes.push(Note { id, pitch, start, duration, velocity });
        self.selected_note = Some(id);
        proof {
            let old_notes = old(self).notes_view();
            assert(forall|i: int|
                0 <= i < old_notes.len() ==> (#[trigger] old_notes[i]).id.0 < id.0);
            assert forall|i: int, j: int|
                0 <= i < j < self.notes_view().len() implies (
                #[trigger] self.notes_view()[i]).id != (#[trigger] self.notes_view()[j]).id by {
                if j == old_notes.len() {
                    assert(self.notes_view()[i] == old_notes[i]);
                } else {
                    assert(self.notes_view()[i] == old_notes[i]);
                    assert(self.notes_view()[j] == old_notes[j]);
                }
            }
        }
        id
    }

    /// Moves the note `id` to `new_pitch` (kept inside the visible window) and
    /// `new_start`, and selects it.  Nothing changes when no note has that id.
    pub fn move_note(&mut self, id: NoteId, new_pitch: u8, new_start: B)
        requires
            old(self).wf(),
        ensures
            final(self).wf(),
            moved_note(*old(self), *final(self), id, new_pitch, new_start),
    {
        match find_note(self.notes.as_slice(), id) {
            None => {},
            Some(i) => {
                let pitch = if new_pitch < self.lowest_pitch {
                    self.lowest_pitch
                } else if new_pitch > self.highest_pitch {
                    self.highest_pitch
                } else {
                    new_pitch
                };
                let ghost before = self.notes@;
                let note = &mut self.notes[i];
                note.pitch = pitch;
                note.start = new_start;
                self.selected_note = Some(id);
                proof {
                    let ov = old(self).notes_view();
                    let nv = self.notes_view();
                    assert(ov == before);
                    assert forall|k: int| 0 <= k < ov.len() && k != i implies (#[trigger] ov[k]).id
                        != id by {
                        if k < i {
                        } else {
                            assert(ov[i as int].id != ov[k].id);
                        }
                    }
                    assert forall|k: int| 0 <= k < nv.len() implies (#[trigger] nv[k]).id == ov[k].id by {
                        if k != i {
                            assert(nv[k] == ov[k]);
                        }
                    }
                    assert forall|a: int, b: int| 0 <= a < b < nv.len() implies (#[trigger] nv[a]).id
                        != (#[trigger] nv[b]).id by {
                        assert(nv[a].id == ov[a].id);
                        assert(nv[b].id == ov[b].id);
                    }
                }
            },
        }
    }

    /// Sets the length of the note `id` to `new_duration` and selects it.
    /// Nothing changes when no note has that id.
    pub fn resize_note(&mut self, id: NoteId, new_duration: B)
        requires
            old(self).wf(),
        ensures
            final(self).wf(),
            resized_note(*old(self), *final(self), id, new_duration),
    {
        match find_note(self.notes.as_slice(), id) {
            None => {},
            Some(i) => {
                let ghost before = self.notes@;
                let note = &mut self.notes[i];
                note.duration = new_duration;
                self.selected_note = Some(id);
                proof {
                    let ov = old(self).notes_view();
                    let nv = self.notes_view();
                    assert(ov == before);
                    assert forall|k: int| 0 <= k < ov.len() && k != i implies (#[trigger] ov[k]).id
                        != id by {
                        if k < i {
                        } else {
                            assert(ov[i as int].id != ov[k].id);
                        }
                    }
                    assert forall|k: int| 0 <= k < nv.len() implies (#[trigger] nv[k]).id == ov[k].id by {
                        if k != i {
                            assert(nv[k] == ov[k]);
                        }
                    }
                    assert forall|a: int, b: int| 0 <= a < b < nv.len() implies (#[trigger] nv[a]).id
                        != (#[trigger] nv[b]).id by {
                        assert(nv[a].id == ov[a].id);
                        assert(nv[b].id == ov[b].id);
                    }
                }
            },
        }
    }

    /// Selects the note `id`.
    pub fn select_note(&mut self, id: NoteId)
        requires
            old(self).wf(),
        ensures
            final(self).wf(),
            final(self).selection() == Some(id),
            final(self).notes_view() == old(self).notes_view(),
            final(self).lowest() == old(self).lowest(),
            final(self).highest() == old(self).highest(),
            final(self).next_id() == old(self).next_id(),
    {
        self.selected_note = Some(id);
        assert(self.notes_view() == old(self).notes_view());
    }

    /// Clears the selection.
    pub fn clear_selection(&mut self)
        requires
            old(self).wf(),
        ensures
            final(self).wf(),
            final(self).selection() is None,
            final(self).notes_view() == old(self).notes_view(),
            final(self).lowest() == old(self).lowest(),
            final(self).highest() == old(self).highest(),
            final(self).next_id() == old(self).next_id(),
    {
        self.selected_note = None;
        assert(self.notes_view() == old(self).notes_view());
    }

    /// Scrolls the window of visible pitches by `delta` rows (positive is up),
    /// keeping its span and keeping it inside `0..=127`.  The notes and the
    /// selection stay as they are.
    pub fn scroll_pitch(&mut self, delta: i16)
        requires
            old(self).wf(),
            delta != 0 ==> old(self).highest() + delta <= i16::MAX,
        ensures
            final(self).wf(),
            final(self).lowest() == shifted_window(
                old(self).lowest() as int,
                old(self).highest() as int,
                delta as int,
            ).0,
            final(self).highest() == shifted_window(
                old(self).lowest() as int,
                old(self).highest() as int,
                delta as int,
            ).1,
            final(self).highest() - final(self).lowest() == old(self).highest() - old(
                self,
            ).lowest(),
            final(self).notes_view() == old(self).notes_view(),
            final(self).selection() == old(self).selection(),
            final(self).next_id() == old(self).next_id(),
    {
        proof {
            lemma_shift_keeps_window(self.lowest_pitch as int, self.highest_pitch as int, delta as int);
        }
        let (low, high) = shift_pitch_window(self.lowest_pitch, self.highest_pitch, delta);
        self.lowest_pitch = low;
        self.highest_pitch = high;
        assert(self.notes_view() == old(self).notes_view());
    }

    /// Applies one message of the piano grid to the board.  The beat values
    /// in the message pass through `start_floor` (starts), `length_floor`
    /// (lengths) and `scroll_rows` (a vertical scroll, turned into pitch rows)
    /// before the board takes them; a created note gets `velocity`.
    ///
    /// Whatever the message, the board stays well formed and its window keeps
    /// its span; only a creation adds a note and advances the next id.
    pub fn apply_message<F, G, H>(
        &mut self,
        message: PianoGridMessage<B>,
        velocity: B,
        start_floor: F,
        length_floor: G,
        scroll_rows: H,
    ) where F: Fn(B) -> B, G: Fn(B) -> B, H: Fn(B) -> i16
        requires
            old(self).wf(),
            message is NoteCreated ==> old(self).next_id() < usize::MAX,
            message matches PianoGridMessage::Scrolled { delta_y, .. } ==> forall|rows: i16|
                call_ensures(scroll_rows, (delta_y,), rows) ==> (rows != 0 ==> old(self).highest()
                    + rows <= i16::MAX),
            forall|b: B| start_floor.requires((b,)),
            forall|b: B| length_floor.requires((b,)),
            forall|b: B| scroll_rows.requires((b,)),
        ensures
            final(self).wf(),
            final(self).highest() - final(self).lowest() == old(self).highest() - old(
                self,
            ).lowest(),
            !(message is NoteCreated) ==> final(self).next_id() == old(self).next_id()
                && final(self).notes_view().len() == old(self).notes_view().len(),
            match message {
                PianoGridMessage::NoteCreated { pitch, start, duration } => {
                    let id = NoteId(old(self).next_id());
                    let note = final(self).notes_view().last();
                    &&& final(self).notes_view().len() == old(self).notes_view().len() + 1
                    &&& final(self).notes_view().drop_last() == old(self).notes_view()
                    &&& note.id == id
                    &&& note.pitch == pitch
                    &&& note.velocity == velocity
                    &&& call_ensures(start_floor, (start,), note.start)
                    &&& call_ensures(length_floor, (duration,), note.duration)
                    &&& !has_note(old(self).notes_view(), id)
                    &&& final(self).next_id() == old(self).next_id() + 1
                    &&& final(self).selection() == Some(id)
                    &&& final(self).lowest() == old(self).lowest()
                    &&& final(self).highest() == old(self).highest()
                },
                PianoGridMessage::NoteMoved { id, new_pitch, new_start } => exists|start: B|
                    #[trigger] call_ensures(start_floor, (new_start,), start) && moved_note(
                        *old(self),
                        *final(self),
                        id,
                        new_pitch,
                        start,
                    ),
                PianoGridMessage::NoteResized { id, new_duration } => exists|length: B|
                    #[trigger] call_ensures(length_floor, (new_duration,), length) && resized_note(
                        *old(self),
                        *final(self),
                        id,
                        length,
                    ),
                PianoGridMessage::NoteSelected(id) => {
                    &&& final(self).selection() == Some(id)
                    &&& final(self).notes_view() == old(self).notes_view()
                    &&& final(self).lowest() == old(self).lowest()
                    &&& final(self).highest() == old(self).highest()
                },
                PianoGridMessage::SelectionCleared => {
                    &&& final(self).selection() is None
                    &&& final(self).notes_view() == old(self).notes_view()
                    &&& final(self).lowest() == old(self).lowest()
                    &&& final(self).highest() == old(self).highest()
                },
                PianoGridMessage::Scrolled { delta_x: _, delta_y } => exists|rows: i16|
                    #[trigger] call_ensures(scroll_rows, (delta_y,), rows) && {
                        &&& final(self).lowest() == shifted_window(
                            old(self).lowest() as int,
                            old(self).highest() as int,
                            rows as int,
                        ).0
                        &&& final(self).highest() == shifted_window(
                            old(self).lowest() as int,
                            old(self).highest() as int,
                            rows as int,
                        ).1
                        &&& final(self).notes_view() == old(self).notes_view()
                        &&& final(self).selection() == old(self).selection()
                    },
            },
    {
        match message {
            PianoGridMessage::NoteCreated { pitch, start, duration } => {
                let start = start_floor(start);
                let duration = length_floor(duration);
                self.create_note(pitch, start, duration, velocity);
                assert(self.notes_view().drop_last() =~= old(self).notes_view());
            },
            PianoGridMessage::NoteMoved { id, new_pitch, new_start } => {
                let start = start_floor(new_start);
                self.move_note(id, new_pitch, start);
            },
            PianoGridMessage::NoteResized { id, new_duration } => {
                let length = length_floor(new_duration);
                self.resize_note(id, length);
            },
            PianoGridMessage::NoteSelected(id) => {
                self.select_note(id);
            },
            PianoGridMessage::SelectionCleared => {
                self.clear_selection();
            },
            PianoGridMessage::Scrolled { delta_x: _, delta_y } => {
                let rows = scroll_rows(delta_y);
                self.scroll_pitch(rows);
            },
        }
    }
}

} // verus!
