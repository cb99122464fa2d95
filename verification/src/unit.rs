//! The internal data types of the integral pitch quantities.

use vstd::prelude::*;

verus! {

/// The internal data type of an octave.
pub type Octave = i64;

/// The internal data type of a semitone count.
pub type Semitone = i64;

/// The internal data type of a MIDI note.
pub type MidiNote = i64;

/// The internal data type of a whole count of cents.
pub type Cents = i64;

/// The internal data type of a count of frets.
pub type Frets = usize;

} // verus!
