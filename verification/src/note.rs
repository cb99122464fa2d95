//! The [`Note`] entity: a thin wrapper around a [`Pitch`] for callers that
//! want to manipulate a note through its pitch.

use vstd::prelude::*;

use crate::convert::A4_MIDI_NOTE;
use crate::pitch::{new_pitch_name_spec, new_pitch_semitones_spec, Pitch, PitchView};
use crate::unit::Octave;

verus! {

/// A note which only keeps track of its pitch; its state is its pitch's.
#[derive(Debug)]
pub struct Note {
    pitch: Pitch,
}

impl View for Note {
    type V = PitchView;

    closed spec fn view(&self) -> PitchView {
        self.pitch@
    }
}

impl Note {
    /// Creates a new [`Note`] given a note's name and octave.
    pub fn new(pitch: &str, octave: Octave) -> (r: Self)
        requires
            i64::MIN <= new_pitch_semitones_spec(pitch@, octave as int) <= i64::MAX,
        ensures
            r@ == (PitchView {
                name: new_pitch_name_spec(pitch@),
                semitones: new_pitch_semitones_spec(pitch@, octave as int),
                base_midi_note: A4_MIDI_NOTE as int,
                octave: octave as int,
            }),
    {
        let pitch = Pitch::new(pitch, octave);
        Self::new_from_pitch(pitch)
    }

    /// Creates a new [`Note`] directly from a [`Pitch`].
    pub fn new_from_pitch(pitch: Pitch) -> (r: Self)
        ensures
            r@ == pitch@,
    {
        Self { pitch }
    }

    /// Returns the [`Pitch`] of the [`Note`].
    pub fn pitch(&mut self) -> (r: &Pitch)
        ensures
            r@ == old(self)@,
            final(self)@ == old(self)@,
    {
        &self.pitch
    }

    /// Returns the [`Pitch`] of the [`Note`] for further manipulation.
    pub fn pitch_mut(&mut self) -> (r: &mut Pitch)
        ensures
            (*r)@ == old(self)@,
            final(self)@ == (*final(r))@,
    {
        &mut self.pitch
    }
}

} // verus!
