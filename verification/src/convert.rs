//! Conversions among the integral pitch quantities: semitone offsets, MIDI
//! note numbers, octaves, cents and note names.
//!
//! The tuning anchor throughout is A4 = MIDI note 69: a semitone offset of 0
//! names the reference pitch itself.

use vstd::prelude::*;
use vstd::arithmetic::div_mod::lemma_fundamental_div_mod;
use vstd::string::*;

use crate::notes::{
    note_index_spec,
    note_name,
    note_name_spec,
    note_offset,
    note_offset_spec,
    sharp_index_spec,
};
use crate::pitch::Pitch;
use crate::unit::{Cents, MidiNote, Octave, Semitone};
use crate::utility::{capitalize_first_letter, capitalize_spec};

verus! {

/// The MIDI number of A4, the reference pitch.
pub const A4_MIDI_NOTE: i64 = 69;

/// The semitone offset that a note name and an octave denote, relative to
/// A4: the name's offset within the octave plus 12 per octave above 4.
pub open spec fn pitch_octave_semitones_spec(pitch: Seq<char>, octave: int) -> int {
    note_offset_spec(capitalize_spec(pitch)) + (octave - 4) * 12
}

/// The MIDI note that sits `semitones` semitones above A4.
pub open spec fn semitones_to_midi_note_spec(semitones: int) -> int {
    A4_MIDI_NOTE + semitones
}

/// The octave register of a MIDI note: `floor(midi / 12) - 1`.
pub open spec fn midi_note_to_octave_spec(midi_note: int) -> int {
    midi_note / 12 - 1
}

/// Cents are hundredths of a semitone.
pub open spec fn semitones_to_cents_spec(semitones: int) -> int {
    semitones * 100
}

/// Whole semitones in a cent count: division by 100 truncated toward zero.
pub open spec fn cents_to_semitones_spec(cents: int) -> int {
    if cents >= 0 {
        cents / 100
    } else {
        -((-cents) / 100)
    }
}

/// The enharmonic respelling of a pitch name, when the name carries an
/// accidental suffix.
///
/// The capitalized name must end in '#' or 'b'; its first letter is looked
/// up in the chromatic table (falling back to C for an unknown letter) and
/// shifted one step up or down. A sharp spelling answers with the flat one
/// (C# -> Db), a flat with the sharp one (Db -> C#), and at the boundaries
/// the shift wraps to the plain natural a semitone away (Cb -> B, B# -> C,
/// E# -> F, Fb -> E). A name without an accidental has no enharmonic.
pub open spec fn enharmonic_spec(pitch: Seq<char>) -> Option<Seq<char>> {
    let p = capitalize_spec(pitch);
    if p.len() == 0 {
        None
    } else {
        let suffix = p[p.len() - 1];
        let looked_up = note_index_spec(seq![p[0]]);
        let i = if looked_up >= 0 {
            looked_up
        } else {
            0
        };
        if suffix == '#' {
            let j = (i + 1) % 12;
            if sharp_index_spec(j) {
                Some(note_name_spec(j + 1).push('b'))
            } else {
                Some(note_name_spec(j))
            }
        } else if suffix == 'b' {
            let j = (i + 11) % 12;
            if sharp_index_spec(j) {
                Some(note_name_spec(j - 1).push('#'))
            } else {
                Some(note_name_spec(j))
            }
        } else {
            None
        }
    }
}

/// Find the number of [`Semitone`]s above A4 denoted by a pitch name and an
/// octave.
///
/// The name's first letter is capitalized and the full name is looked up in
/// the chromatic table; an unrecognized name silently contributes offset 0.
pub fn pitch_and_octave_to_semitones(pitch: &str, octave: Octave) -> (semitones: Semitone)
    requires
        i64::MIN <= pitch_octave_semitones_spec(pitch@, octave as int) <= i64::MAX,
    ensures
        semitones == pitch_octave_semitones_spec(pitch@, octave as int),
{
    let p = capitalize_first_letter(pitch);
    let offset = note_offset(p.as_str());
    let wide: i128 = offset as i128 + (octave as i128 - 4) * 12;
    wide as i64
}

/// Find the MIDI note sitting the given number of [`Semitone`]s above A4.
pub fn semitones_to_midi_note(semitones: Semitone) -> (midi_note: MidiNote)
    requires
        semitones + A4_MIDI_NOTE <= i64::MAX,
    ensures
        midi_note == semitones_to_midi_note_spec(semitones as int),
{
    A4_MIDI_NOTE + semitones
}

/// Find the [`Octave`] register of a MIDI note.
pub fn midi_note_to_octave(midi_note: MidiNote) -> (octave: Octave)
    ensures
        octave == midi_note_to_octave_spec(midi_note as int),
{
    let q: i64 = midi_note.checked_div_euclid(12).unwrap();
    q - 1
}

/// Find the number of [`Cents`] spanned by the given number of [`Semitone`]s.
pub fn semitones_to_cents(semitones: Semitone) -> (cents: Cents)
    requires
        i64::MIN <= semitones * 100 <= i64::MAX,
    ensures
        cents == semitones_to_cents_spec(semitones as int),
{
    let wide: i128 = semitones as i128 * 100;
    wide as i64
}

/// Find the number of whole [`Semitone`]s in a count of [`Cents`].
pub fn cents_to_semitones(cents: Cents) -> (semitones: Semitone)
    ensures
        semitones == cents_to_semitones_spec(cents as int),
{
    cents.checked_div(100).unwrap()
}

/// Encapsulate as a [`Pitch`] the pitch sitting `semitones` semitones above
/// the reference, under the reference MIDI note `base_midi_note`.
///
/// The MIDI note `semitones + base_midi_note` is mapped through the
/// chromatic table (index `midi mod 12`) for its name and through
/// `floor(midi / 12) - 1` for its octave; the resulting [`Pitch`] is built
/// from that name and octave, anchored to the default A4 reference.
pub fn semitones_to_pitch(semitones: Semitone, base_midi_note: MidiNote) -> (pitch: Pitch)
    requires
        i64::MIN <= semitones + base_midi_note - A4_MIDI_NOTE <= i64::MAX,
    ensures
        pitch@ == (crate::pitch::PitchView {
            name: note_name_spec((semitones + base_midi_note) % 12),
            semitones: semitones + base_midi_note - A4_MIDI_NOTE,
            base_midi_note: A4_MIDI_NOTE as int,
            octave: (semitones + base_midi_note) / 12 - 1,
        }),
{
    let m: i128 = semitones as i128 + base_midi_note as i128;
    let idx: usize = m.checked_rem_euclid(12).unwrap() as usize;
    let octave: i64 = (m.checked_div_euclid(12).unwrap() - 1) as i64;
    let name = note_name(idx);
    proof {
        crate::notes::lemma_note_name_canonical(idx as int);
        lemma_fundamental_div_mod(m as int, 12);
        assert(crate::pitch::new_pitch_name_spec(name@) == name@);
        assert(crate::pitch::new_pitch_semitones_spec(name@, octave as int)
            == (idx - 9) + (octave - 4) * 12);
    }
    Pitch::new(name, octave)
}

/// Finds the enharmonic of a pitch (as a string), if it exists.
///
/// See [`enharmonic_spec`] for the exact behaviour, boundary cases included.
pub fn enharmonic(pitch: &str) -> (r: Option<String>)
    ensures
        r is Some <==> enharmonic_spec(pitch@) is Some,
        r is Some ==> r.unwrap()@ == enharmonic_spec(pitch@).unwrap(),
{
    let p = capitalize_first_letter(pitch);
    let n = p.as_str().unicode_len();
    if n == 0 {
        return None;
    }
    let suffix = p.as_str().get_char(n - 1);
    let first = p.as_str().get_char(0);
    proof {
        assert(seq![p@[0]] =~= Seq::empty().push(p@[0]));
    }
    let i: i64 = match first {
        'C' => 0,
        'D' => 2,
        'E' => 4,
        'F' => 5,
        'G' => 7,
        'A' => 9,
        'B' => 11,
        _ => 0,
    };
    if suffix == '#' {
        let j: usize = if i == 11 {
            0
        } else {
            (i + 1) as usize
        };
        if j == 1 || j == 3 || j == 6 || j == 8 || j == 10 {
            let r = String::from_str(note_name(j + 1)).concat("b");
            proof {
                reveal_strlit("b");
                assert(("b")@ =~= seq!['b']);
                assert(r@ =~= note_name_spec(j + 1).push('b'));
            }
            Some(r)
        } else {
            Some(String::from_str(note_name(j)))
        }
    } else if suffix == 'b' {
        let j: usize = if i == 0 {
            11
        } else {
            (i - 1) as usize
        };
        if j == 1 || j == 3 || j == 6 || j == 8 || j == 10 {
            let r = String::from_str(note_name(j - 1)).concat("#");
            proof {
                reveal_strlit("#");
                assert(("#")@ =~= seq!['#']);
                assert(r@ =~= note_name_spec(j - 1).push('#'));
            }
            Some(r)
        } else {
            Some(String::from_str(note_name(j)))
        }
    } else {
        None
    }
}

} // verus!
