//! The [`Pitch`] entity: a note name, an octave and a semitone offset from
//! the tuning reference, kept mutually consistent by every constructor and
//! setter through the conversion functions.

use vstd::prelude::*;
use vstd::string::*;

use crate::convert;
use crate::convert::{
    enharmonic_spec,
    pitch_octave_semitones_spec,
    semitones_to_cents_spec,
    semitones_to_midi_note_spec,
    A4_MIDI_NOTE,
};
use crate::notes::note_name_spec;
use crate::unit::{Cents, MidiNote, Octave, Semitone};
use crate::utility::{capitalize_first_letter, capitalize_spec, lemma_capitalize_idempotent};

verus! {

/// The mathematical state of a [`Pitch`]: its spelled name, its semitone
/// offset from the reference frequency, the reference MIDI note, and its
/// octave register.
#[verifier::ext_equal]
pub ghost struct PitchView {
    pub name: Seq<char>,
    pub semitones: int,
    pub base_midi_note: int,
    pub octave: int,
}

/// The name a new [`Pitch`] stores for the given spelling: the spelling is
/// capitalized, and a flat spelling is replaced by its sharp enharmonic.
pub open spec fn new_pitch_name_spec(pitch: Seq<char>) -> Seq<char> {
    let c = capitalize_spec(pitch);
    if c.len() > 0 && c[c.len() - 1] == 'b' && enharmonic_spec(c) is Some {
        enharmonic_spec(c).unwrap()
    } else {
        c
    }
}

/// The semitone offset a new [`Pitch`] stores for the given spelling and
/// octave.
pub open spec fn new_pitch_semitones_spec(pitch: Seq<char>, octave: int) -> int {
    pitch_octave_semitones_spec(new_pitch_name_spec(pitch), octave)
}

/// A structure which represents the pitch of a note.
///
/// The name, the semitone offset and the octave are kept mutually derivable
/// through the conversion functions: every setter recomputes the dependent
/// fields.
#[derive(Debug)]
pub struct Pitch {
    pitch: String,
    semitones: i64,
    base_midi_note: i64,
    octave: i64,
}

impl Clone for Pitch {
    /// Cloning a [`Pitch`] keeps its whole state.
    fn clone(&self) -> (r: Self)
        ensures
            r@ == self@,
    {
        let r = Self {
            pitch: self.pitch.clone(),
            semitones: self.semitones,
            base_midi_note: self.base_midi_note,
            octave: self.octave,
        };
        proof {
            assert(r@ =~= self@);
        }
        r
    }
}

impl View for Pitch {
    type V = PitchView;

    closed spec fn view(&self) -> PitchView {
        PitchView {
            name: self.pitch@,
            semitones: self.semitones as int,
            base_midi_note: self.base_midi_note as int,
            octave: self.octave as int,
        }
    }
}

impl Pitch {
    /// Creates a new [`Pitch`] from the name of a pitch and its octave,
    /// anchored to the default reference of A4 = MIDI note 69.
    ///
    /// The name is capitalized and a flat spelling is stored as its sharp
    /// enharmonic.
    pub fn new(pitch: &str, octave: Octave) -> (r: Self)
        requires
            i64::MIN <= new_pitch_semitones_spec(pitch@, octave as int) <= i64::MAX,
        ensures
            r@ == (PitchView {
                name: new_pitch_name_spec(pitch@),
                semitones: new_pitch_semitones_spec(pitch@, octave as int),
                base_midi_note: A4_MIDI_NOTE as int,
                octave: octave as int,
            }),
    {
        let mut name = capitalize_first_letter(pitch);
        let n = name.as_str().unicode_len();
        if n > 0 && name.as_str().get_char(n - 1) == 'b' {
            match convert::enharmonic(name.as_str()) {
                Some(e) => {
                    name = e;
                },
                None => {},
            }
        }
        let semitones = convert::pitch_and_octave_to_semitones(name.as_str(), octave);
        let r = Self { pitch: name, semitones, base_midi_note: A4_MIDI_NOTE, octave };
        proof {
            assert(r@ =~= (PitchView {
                name: new_pitch_name_spec(pitch@),
                semitones: new_pitch_semitones_spec(pitch@, octave as int),
                base_midi_note: A4_MIDI_NOTE as int,
                octave: octave as int,
            }));
        }
        r
    }

    /// Creates a new [`Pitch`] given all of its fields.
    ///
    /// Be careful when using this function, as it doesn't check that the
    /// given fields are consistent with each other.
    pub fn new_from_complete(
        pitch: &str,
        semitones: Semitone,
        base_midi_note: MidiNote,
        octave: Octave,
    ) -> (r: Self)
        ensures
            r@ == (PitchView {
                name: pitch@,
                semitones: semitones as int,
                base_midi_note: base_midi_note as int,
                octave: octave as int,
            }),
    {
        let r = Self { pitch: String::from_str(pitch), semitones, base_midi_note, octave };
        proof {
            assert(r@ =~= (PitchView {
                name: pitch@,
                semitones: semitones as int,
                base_midi_note: base_midi_note as int,
                octave: octave as int,
            }));
        }
        r
    }

    /// Creates a new [`Pitch`] from a name and an octave, anchored to an
    /// explicit reference MIDI note.
    ///
    /// The name is stored as given; the semitone offset is derived from the
    /// name and the octave.
    pub fn new_with_reference(pitch: &str, octave: Octave, base_midi_note: MidiNote) -> (r: Self)
        requires
            i64::MIN <= pitch_octave_semitones_spec(pitch@, octave as int) <= i64::MAX,
        ensures
            r@ == (PitchView {
                name: pitch@,
                semitones: pitch_octave_semitones_spec(pitch@, octave as int),
                base_midi_note: base_midi_note as int,
                octave: octave as int,
            }),
    {
        let semitones = convert::pitch_and_octave_to_semitones(pitch, octave);
        let r = Self { pitch: String::from_str(pitch), semitones, base_midi_note, octave };
        proof {
            assert(r@ =~= (PitchView {
                name: pitch@,
                semitones: pitch_octave_semitones_spec(pitch@, octave as int),
                base_midi_note: base_midi_note as int,
                octave: octave as int,
            }));
        }
        r
    }

    /// Creates a new [`Pitch`] from whichever parameters are given.
    ///
    /// A name and an octave win over a semitone offset: with all three the
    /// pitch is built as by [`Pitch::new`] (on the default reference), with
    /// name and octave alone as by [`Pitch::new_with_reference`], with only
    /// a semitone offset as by the semitone conversion, and with neither as
    /// the default A4.
    pub fn new_from_builder(
        pitch: Option<&str>,
        semitones: Option<Semitone>,
        base_midi_note: MidiNote,
        octave: Option<Octave>,
    ) -> (r: Self)
        requires
            (pitch is Some && semitones is Some && octave is Some) ==> i64::MIN
                <= new_pitch_semitones_spec(pitch.unwrap()@, octave.unwrap() as int) <= i64::MAX,
            (pitch is Some && semitones is None && octave is Some) ==> i64::MIN
                <= pitch_octave_semitones_spec(pitch.unwrap()@, octave.unwrap() as int) <= i64::MAX,
            (!(pitch is Some && octave is Some) && semitones is Some) ==> i64::MIN <= semitones.unwrap()
                + base_midi_note - A4_MIDI_NOTE <= i64::MAX,
        ensures
            (pitch is Some && semitones is Some && octave is Some) ==> r@ == (PitchView {
                name: new_pitch_name_spec(pitch.unwrap()@),
                semitones: new_pitch_semitones_spec(pitch.unwrap()@, octave.unwrap() as int),
                base_midi_note: A4_MIDI_NOTE as int,
                octave: octave.unwrap() as int,
            }),
            (pitch is Some && semitones is None && octave is Some) ==> r@ == (PitchView {
                name: pitch.unwrap()@,
                semitones: pitch_octave_semitones_spec(pitch.unwrap()@, octave.unwrap() as int),
                base_midi_note: base_midi_note as int,
                octave: octave.unwrap() as int,
            }),
            (!(pitch is Some && octave is Some) && semitones is Some) ==> r@ == (PitchView {
                name: note_name_spec((semitones.unwrap() + base_midi_note) % 12),
                semitones: semitones.unwrap() + base_midi_note - A4_MIDI_NOTE,
                base_midi_note: A4_MIDI_NOTE as int,
                octave: (semitones.unwrap() + base_midi_note) / 12 - 1,
            }),
            (!(pitch is Some && octave is Some) && semitones is None) ==> r@ == (PitchView {
                name: seq!['A'],
                semitones: 0,
                base_midi_note: A4_MIDI_NOTE as int,
                octave: 4,
            }),
    {
        if let (Some(pitch), Some(_), Some(octave)) = (pitch, semitones, octave) {
            Self::new(pitch, octave)
        } else if let (Some(pitch), Some(octave)) = (pitch, octave) {
            Self::new_with_reference(pitch, octave, base_midi_note)
        } else if let Some(semitones) = semitones {
            convert::semitones_to_pitch(semitones, base_midi_note)
        } else {
            proof {
                reveal_strlit("A");
                assert(("A")@ =~= seq!['A']);
                assert(capitalize_spec(seq!['A']) =~= seq!['A']);
            }
            Self::new("A", 4)
        }
    }

    /// Creates a new [`Pitch`] from the number of [`Semitone`]s above the
    /// default reference pitch.
    pub fn new_from_semitones(semitones: Semitone) -> (r: Self)
        ensures
            r@ == (PitchView {
                name: note_name_spec((semitones + A4_MIDI_NOTE) % 12),
                semitones: semitones as int,
                base_midi_note: A4_MIDI_NOTE as int,
                octave: (semitones + A4_MIDI_NOTE) / 12 - 1,
            }),
    {
        let r = convert::semitones_to_pitch(semitones, A4_MIDI_NOTE);
        proof {
            assert(r@ =~= (PitchView {
                name: note_name_spec((semitones + A4_MIDI_NOTE) % 12),
                semitones: semitones as int,
                base_midi_note: A4_MIDI_NOTE as int,
                octave: (semitones + A4_MIDI_NOTE) / 12 - 1,
            }));
        }
        r
    }

    /// Returns the name of the [`Pitch`].
    pub fn pitch(&self) -> (r: &str)
        ensures
            r@ == self@.name,
    {
        self.pitch.as_str()
    }

    /// Sets the name of the [`Pitch`] and recomputes its semitone offset
    /// from the new name and the current octave.
    pub fn set_pitch(&mut self, pitch: &str)
        requires
            i64::MIN <= pitch_octave_semitones_spec(pitch@, old(self)@.octave) <= i64::MAX,
        ensures
            final(self)@ == (PitchView {
                name: capitalize_spec(pitch@),
                semitones: pitch_octave_semitones_spec(pitch@, old(self)@.octave),
                ..old(self)@
            }),
    {
        proof {
            lemma_capitalize_idempotent(pitch@);
        }
        self.pitch = capitalize_first_letter(pitch);
        self.semitones = convert::pitch_and_octave_to_semitones(self.pitch.as_str(), self.octave);
        assert(self@ =~= (PitchView {
            name: capitalize_spec(pitch@),
            semitones: pitch_octave_semitones_spec(pitch@, old(self)@.octave),
            ..old(self)@
        }));
    }

    /// Returns the reference MIDI note of the [`Pitch`].
    pub fn base_midi_note(&self) -> (r: MidiNote)
        ensures
            r == self@.base_midi_note,
    {
        self.base_midi_note
    }

    /// Sets the reference MIDI note of the [`Pitch`].
    ///
    /// The semitone offset is an offset from the reference frequency, so it
    /// is unchanged; only spellings derived later use the new reference.
    pub fn set_base_midi_note(&mut self, midi_note: MidiNote)
        ensures
            final(self)@ == (PitchView { base_midi_note: midi_note as int, ..old(self)@ }),
    {
        self.base_midi_note = midi_note;
        assert(self@ =~= (PitchView { base_midi_note: midi_note as int, ..old(self)@ }));
    }

    /// Returns the [`Octave`] of the [`Pitch`].
    pub fn octave(&self) -> (r: Octave)
        ensures
            r == self@.octave,
    {
        self.octave
    }

    /// Sets the [`Octave`] of the [`Pitch`] and recomputes its semitone
    /// offset from the current name and the new octave.
    pub fn set_octave(&mut self, octave: Octave)
        requires
            i64::MIN <= pitch_octave_semitones_spec(old(self)@.name, octave as int) <= i64::MAX,
        ensures
            final(self)@ == (PitchView {
                octave: octave as int,
                semitones: pitch_octave_semitones_spec(old(self)@.name, octave as int),
                ..old(self)@
            }),
    {
        self.octave = octave;
        self.semitones = convert::pitch_and_octave_to_semitones(self.pitch.as_str(), self.octave);
        assert(self@ =~= (PitchView {
            octave: octave as int,
            semitones: pitch_octave_semitones_spec(old(self)@.name, octave as int),
            ..old(self)@
        }));
    }

    /// Returns the enharmonic pair of the [`Pitch`], if it exists: the same
    /// pitch under the alternate spelling, with every other field kept.
    pub fn enharmonic(&self) -> (r: Option<Self>)
        ensures
            r is Some <==> enharmonic_spec(self@.name) is Some,
            r is Some ==> r.unwrap()@ == (PitchView {
                name: enharmonic_spec(self@.name).unwrap(),
                ..self@
            }),
    {
        match convert::enharmonic(self.pitch.as_str()) {
            Some(e) => {
                let r = Self {
                    pitch: e,
                    semitones: self.semitones,
                    base_midi_note: self.base_midi_note,
                    octave: self.octave,
                };
                proof {
                    assert(r@ =~= (PitchView {
                        name: enharmonic_spec(self@.name).unwrap(),
                        ..self@
                    }));
                }
                Some(r)
            },
            None => None,
        }
    }

    /// Returns the number of [`Semitone`]s that the [`Pitch`] is away from
    /// the reference frequency.
    pub fn semitones(&self) -> (r: Semitone)
        ensures
            r == self@.semitones,
    {
        self.semitones
    }

    /// Sets the number of [`Semitone`]s that the [`Pitch`] is away from the
    /// reference frequency, recomputing the name and the octave.
    pub fn set_semitones(&mut self, semitones: Semitone)
        ensures
            final(self)@ == (PitchView {
                name: note_name_spec((semitones + old(self)@.base_midi_note) % 12),
                semitones: semitones as int,
                octave: (semitones + A4_MIDI_NOTE) / 12 - 1,
                base_midi_note: old(self)@.base_midi_note,
            }),
    {
        self.semitones = semitones;
        let m: i128 = semitones as i128 + self.base_midi_note as i128;
        let idx: usize = m.checked_rem_euclid(12).unwrap() as usize;
        self.pitch = String::from_str(crate::notes::note_name(idx));
        let t: i128 = semitones as i128 + A4_MIDI_NOTE as i128;
        self.octave = (t.checked_div_euclid(12).unwrap() - 1) as i64;
        assert(self@ =~= (PitchView {
            name: note_name_spec((semitones + old(self)@.base_midi_note) % 12),
            semitones: semitones as int,
            octave: (semitones + A4_MIDI_NOTE) / 12 - 1,
            base_midi_note: old(self)@.base_midi_note,
        }));
    }

    /// Returns the representation of the [`Pitch`] as a MIDI note.
    pub fn midi_note(&self) -> (r: MidiNote)
        requires
            self@.semitones + A4_MIDI_NOTE <= i64::MAX,
        ensures
            r == semitones_to_midi_note_spec(self@.semitones),
    {
        convert::semitones_to_midi_note(self.semitones)
    }

    /// Returns the offset of the [`Pitch`] from the reference frequency in
    /// [`Cents`].
    pub fn cents(&self) -> (r: Cents)
        requires
            i64::MIN <= self@.semitones * 100 <= i64::MAX,
        ensures
            r == semitones_to_cents_spec(self@.semitones),
    {
        convert::semitones_to_cents(self.semitones)
    }
}

} // verus!
