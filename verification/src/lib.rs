//! A music-theory computation library: conversions among semitone offsets,
//! MIDI note numbers, octaves, cents and note names, together with the
//! `Pitch`, `String` and `Fretboard` entities built on them.
//!
//! Every quantity handled here is integral: a pitch is identified by its
//! (rounded) equal-tempered semitone offset from the tuning reference, so
//! note names, octaves, MIDI numbers and cent values are all exact.

pub mod convert;
pub mod fretboard;
pub mod note;
pub mod notes;
pub mod pitch;
pub mod string;
pub mod unit;
pub mod utility;

pub use fretboard::Fretboard;
pub use note::Note;
pub use notes::note_name;
pub use pitch::Pitch;
