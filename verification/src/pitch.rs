//! Integer geometry of the piano roll: the window of visible pitches, the rows
//! that pitches occupy, and how a drag turns a cursor row into a pitch.

use vstd::prelude::*;

verus! {

/// The highest pitch the window may show (the top of the MIDI range).
pub const TOP_PITCH: i16 = 127;

/// `x` clamped into `[lo, hi]`, as `Ord::clamp` computes it when `lo <= hi`.
pub open spec fn clamp(x: int, lo: int, hi: int) -> int {
    if x < lo {
        lo
    } else if x > hi {
        hi
    } else {
        x
    }
}

/// A window `lowest..=highest` of pitches that lies within the MIDI range.
pub open spec fn valid_window(lowest: int, highest: int) -> bool {
    0 <= lowest <= highest <= TOP_PITCH
}

/// The window that scrolling by `delta` rows leads to, before it is stored
/// back into `u8`s: the window moves by `delta` keeping its span, and is then
/// pushed back so that its bottom is not below 0 and its top not above 127.
pub open spec fn shifted_window(lowest: int, highest: int, delta: int) -> (int, int) {
    if delta == 0 {
        (lowest, highest)
    } else {
        let span = highest - lowest;
        let low1 = lowest + delta;
        let (low2, high2) = if low1 < 0 {
            (0, span)
        } else {
            (low1, low1 + span)
        };
        if high2 > TOP_PITCH {
            (TOP_PITCH - span, TOP_PITCH as int)
        } else {
            (low2, high2)
        }
    }
}

/// Moves the pitch window `lowest..=highest` by `delta` rows (positive is
/// up), keeping its span and keeping it inside `0..=127`.
pub fn shift_pitch_window(lowest: u8, highest: u8, delta: i16) -> (r: (u8, u8))
    requires
        delta != 0 ==> lowest + delta <= i16::MAX && highest + delta <= i16::MAX,
    ensures
        r.0 == shifted_window(lowest as int, highest as int, delta as int).0 as u8,
        r.1 == shifted_window(lowest as int, highest as int, delta as int).1 as u8,
{
    if delta == 0 {
        return (lowest, highest);
    }
    let span: i16 = highest as i16 - lowest as i16;
    let mut low: i16 = lowest as i16 + delta;
    let mut high: i16 = low + span;
    if low < 0 {
        low = 0;
        high = span;
    }
    if high > TOP_PITCH {
        high = TOP_PITCH;
        low = high - span;
    }
    (low as u8, high as u8)
}

/// Scrolling a valid window gives a valid window with the same span.
pub proof fn lemma_shift_keeps_window(lowest: int, highest: int, delta: int)
    requires
        valid_window(lowest, highest),
    ensures
        valid_window(
            shifted_window(lowest, highest, delta).0,
            shifted_window(lowest, highest, delta).1,
        ),
        shifted_window(lowest, highest, delta).1 - shifted_window(lowest, highest, delta).0
            == highest - lowest,
{
}

/// Scrolling a valid window puts its bottom at `lowest + delta`, clamped so
/// that the whole window stays within `0..=127`.
pub proof fn lemma_shift_is_clamped_move(lowest: int, highest: int, delta: int)
    requires
        valid_window(lowest, highest),
    ensures
        shifted_window(lowest, highest, delta).0 == clamp(
            lowest + delta,
            0,
            TOP_PITCH - (highest - lowest),
        ),
{
}

/// Scrolling by `delta` and back by `-delta` restores the window, as long as
/// the first scroll did not hit either end of the range.
pub proof fn lemma_shift_back_restores(lowest: int, highest: int, delta: int)
    requires
        valid_window(lowest, highest),
        0 <= lowest + delta,
        highest + delta <= TOP_PITCH,
    ensures
        ({
            let w = shifted_window(lowest, highest, delta);
            shifted_window(w.0, w.1, -delta) == (lowest, highest)
        }),
{
}

/// The number of pitch rows in the window `lowest..=highest`.
pub fn pitch_count(lowest: u8, highest: u8) -> (r: u8)
    requires
        lowest <= highest,
        highest - lowest < 255,
    ensures
        r == highest - lowest + 1,
{
    highest - lowest + 1
}

/// The row, counted from the top, on which `pitch` is drawn: higher pitches
/// sit higher.
pub fn pitch_row(highest: u8, pitch: u8) -> (r: u8)
    requires
        pitch <= highest,
    ensures
        r == highest - pitch,
{
    highest - pitch
}

/// The pitch under the row `offset` (counted from the top), kept inside the
/// window `lowest..=highest`.
pub fn pitch_at_row(lowest: u8, highest: u8, offset: i16) -> (r: u8)
    requires
        lowest <= highest,
        highest - offset <= i16::MAX,
    ensures
        r == clamp(highest - offset, lowest as int, highest as int),
        lowest <= r <= highest,
{
    let p: i16 = highest as i16 - offset;
    let clamped: i16 = if p < lowest as i16 {
        lowest as i16
    } else if p > highest as i16 {
        highest as i16
    } else {
        p
    };
    clamped as u8
}

/// Reading back the pitch of the row that a pitch of the window is drawn on
/// gives that pitch.
pub proof fn lemma_row_round_trip(lowest: u8, highest: u8, pitch: u8)
    requires
        lowest <= pitch <= highest,
    ensures
        clamp(highest - (highest - pitch), lowest as int, highest as int) == pitch,
{
}

/// How far a grabbed note's pitch lies above the pitch under the cursor.
pub fn grab_pitch_offset(note_pitch: u8, cursor_pitch: u8) -> (r: i16)
    ensures
        r == note_pitch - cursor_pitch,
{
    note_pitch as i16 - cursor_pitch as i16
}

/// The pitch a dragged note moves to: the cursor's pitch plus the offset at
/// which the note was grabbed, kept inside the window `lowest..=highest`.
pub fn moved_pitch(cursor_pitch: i16, pitch_offset: i16, lowest: u8, highest: u8) -> (r: u8)
    requires
        lowest <= highest,
        i16::MIN <= cursor_pitch + pitch_offset <= i16::MAX,
    ensures
        r == clamp(cursor_pitch + pitch_offset, lowest as int, highest as int),
        lowest <= r <= highest,
{
    let p: i16 = cursor_pitch + pitch_offset;
    let clamped: i16 = if p < lowest as i16 {
        lowest as i16
    } else if p > highest as i16 {
        highest as i16
    } else {
        p
    };
    clamped as u8
}

/// A note grabbed at some row and dragged to a row with the same pitch keeps
/// its pitch, when that pitch lies in the window.
pub proof fn lemma_drag_in_place_keeps_pitch(
    note_pitch: u8,
    cursor_pitch: u8,
    lowest: u8,
    highest: u8,
)
    requires
        lowest <= note_pitch <= highest,
    ensures
        clamp(cursor_pitch + (note_pitch - cursor_pitch), lowest as int, highest as int)
            == note_pitch,
{
}

/// Whether `pitch` falls on a black key: the pitch classes C#, D#, F#, G#, A#.
pub open spec fn is_black_key_spec(pitch: int) -> bool {
    let class = pitch % 12;
    class == 1 || class == 3 || class == 6 || class == 8 || class == 10
}

/// Whether the row of `pitch` is drawn as a black key.
pub fn is_black_key(pitch: u8) -> (r: bool)
    ensures
        r == is_black_key_spec(pitch as int),
{
    let class = pitch % 12;
    class == 1 || class == 3 || class == 6 || class == 8 || class == 10
}

/// Keys repeat every octave.
pub proof fn lemma_black_keys_repeat_by_octave(pitch: int)
    requires
        0 <= pitch,
    ensures
        is_black_key_spec(pitch + 12) == is_black_key_spec(pitch),
{
    assert((pitch + 12) % 12 == pitch % 12) by (nonlinear_arith)
        requires
            0 <= pitch,
    ;
}

/// The class of the pitch one semitone up.
proof fn lemma_next_class(pitch: int)
    ensures
        (pitch + 1) % 12 == (if pitch % 12 == 11 {
            0
        } else {
            pitch % 12 + 1
        }),
{
    assert((pitch + 1) % 12 == (if pitch % 12 == 11 {
        0
    } else {
        pitch % 12 + 1
    })) by (nonlinear_arith);
}

/// The layout of the keyboard: every C is a white key; no two black keys
/// are neighbours; and two white keys are neighbours exactly at E-F and
/// B-C (the classes 4 and 11 and the class above each), so the black keys
/// are C#, D#, F#, G# and A#.
pub proof fn lemma_keyboard_layout(pitch: int)
    ensures
        pitch % 12 == 0 ==> !is_black_key_spec(pitch),
        is_black_key_spec(pitch) ==> !is_black_key_spec(pitch + 1),
        (!is_black_key_spec(pitch) && !is_black_key_spec(pitch + 1)) <==> (pitch % 12 == 4
            || pitch % 12 == 11),
{
    lemma_next_class(pitch);
}

/// How strongly a vertical grid line is drawn.
#[derive(Debug, Clone, Copy, PartialEq, Eq, Structural)]
pub enum GridLine {
    /// A line on a beat that starts a bar of four beats.
    Bar,
    /// A line on any other whole beat.
    Beat,
    /// A line between beats.
    Subdivision,
}

/// The kind of the grid line at `division` (counted in snap steps), where a
/// beat holds `divisions_per_beat` steps and the line lies in whole beat
/// `whole_beat`.  Fewer than one step per beat counts as one.
pub fn grid_line(division: i32, divisions_per_beat: i32, whole_beat: i32) -> (r: GridLine)
    ensures
        r == (if division as int % (if divisions_per_beat < 1 {
            1int
        } else {
            divisions_per_beat as int
        }) == 0 {
            if whole_beat as int % 4 == 0 {
                GridLine::Bar
            } else {
                GridLine::Beat
            }
        } else {
            GridLine::Subdivision
        }),
{
    let step: i64 = if divisions_per_beat < 1 {
        1
    } else {
        divisions_per_beat as i64
    };
    let d: i64 = if division < 0 {
        -(division as i64)
    } else {
        division as i64
    };
    let w: i64 = if whole_beat < 0 {
        -(whole_beat as i64)
    } else {
        whole_beat as i64
    };
    proof {
        lemma_divides_negation(division as int, step as int);
        lemma_divides_negation(whole_beat as int, 4);
    }
    if d % step == 0 {
        if w % 4 == 0 {
            GridLine::Bar
        } else {
            GridLine::Beat
        }
    } else {
        GridLine::Subdivision
    }
}

/// A number and its negation have the same divisors.
proof fn lemma_divides_negation(a: int, b: int)
    requires
        0 < b,
    ensures
        (a % b == 0) == ((-a) % b == 0),
{
    vstd::arithmetic::div_mod::lemma_fundamental_div_mod(a, b);
    vstd::arithmetic::div_mod::lemma_fundamental_div_mod(-a, b);
    if a % b == 0 {
        vstd::arithmetic::div_mod::lemma_mod_multiples_vanish(-(a / b), 0, b);
        assert(b * (-(a / b)) + 0 == -a) by (nonlinear_arith)
            requires
                a == b * (a / b) + 0,
        ;
    }
    if (-a) % b == 0 {
        vstd::arithmetic::div_mod::lemma_mod_multiples_vanish(-((-a) / b), 0, b);
        assert(b * (-((-a) / b)) + 0 == a) by (nonlinear_arith)
            requires
                -a == b * ((-a) / b) + 0,
        ;
    }
}

} // verus!
