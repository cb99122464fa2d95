//! The [`Fretboard`] entity: an ordered collection of [`String`]s sharing a
//! fret count, defaulting to standard six-string tuning.

use vstd::prelude::*;

use crate::pitch::{Pitch, PitchView};
use crate::string::{fret_seq_spec, String, StringView};
use crate::unit::Frets;

verus! {

/// The mathematical state of a [`Fretboard`]: the state of each string in
/// order, and the shared fret count.
#[verifier::ext_equal]
pub ghost struct FretboardView {
    pub strings: Seq<StringView>,
    pub frets: nat,
}

/// The open pitch of string `i` (low to high) of a six-string instrument in
/// standard tuning: E2, A2, D3, G3, B3, E4, anchored to A4 = MIDI note 69.
pub open spec fn standard_tuning_root_spec(i: int) -> PitchView {
    if i == 0 {
        PitchView { name: seq!['E'], semitones: -29, base_midi_note: 69, octave: 2 }
    } else if i == 1 {
        PitchView { name: seq!['A'], semitones: -24, base_midi_note: 69, octave: 2 }
    } else if i == 2 {
        PitchView { name: seq!['D'], semitones: -19, base_midi_note: 69, octave: 3 }
    } else if i == 3 {
        PitchView { name: seq!['G'], semitones: -14, base_midi_note: 69, octave: 3 }
    } else if i == 4 {
        PitchView { name: seq!['B'], semitones: -10, base_midi_note: 69, octave: 3 }
    } else {
        PitchView { name: seq!['E'], semitones: -5, base_midi_note: 69, octave: 4 }
    }
}

/// The invariant a [`Fretboard`] built by [`Fretboard::new`] satisfies:
/// every string carries the shared fret count and its fret sequence is the
/// one derived from its own open pitch.
pub open spec fn fretboard_wf(v: FretboardView) -> bool {
    forall|i: int|
        0 <= i < v.strings.len() ==> (#[trigger] v.strings[i]).fret_count == v.frets
            && v.strings[i].frets == fret_seq_spec(v.strings[i].pitch, v.frets)
}

/// Law: on a well-formed fretboard with `N` frets, every string's fret
/// sequence has length `N`, and the pitch at fret `k` of any string sits
/// exactly `k` semitones above that string's open pitch.
pub proof fn lemma_fretboard_fret_semitones(v: FretboardView, i: int, k: int)
    requires
        fretboard_wf(v),
        0 <= i < v.strings.len(),
        0 <= k < v.frets,
    ensures
        v.strings[i].frets.len() == v.frets,
        v.strings[i].frets[k].semitones == v.strings[i].pitch.semitones + k,
{
}

/// A fretted instrument: an ordered collection of [`String`]s and the fret
/// count they share.
#[derive(Debug)]
pub struct Fretboard {
    strings: Vec<String>,
    frets: Frets,
}

impl View for Fretboard {
    type V = FretboardView;

    closed spec fn view(&self) -> FretboardView {
        FretboardView {
            strings: self.strings@.map_values(|s: String| s@),
            frets: self.frets as nat,
        }
    }
}

impl Fretboard {
    /// Create a new [`Fretboard`] from a [`Vec`] of [`String`]s and a number
    /// of [`Frets`].
    ///
    /// The strings are stored as given; nothing checks that they share the
    /// fret count.
    pub fn new_from_strings(strings: Vec<String>, frets: Frets) -> (r: Self)
        ensures
            r@ == (FretboardView {
                strings: strings@.map_values(|s: String| s@),
                frets: frets as nat,
            }),
    {
        let r = Self { strings, frets };
        proof {
            assert(r@ =~= (FretboardView {
                strings: r.strings@.map_values(|s: String| s@),
                frets: frets as nat,
            }));
        }
        r
    }

    /// Create a new [`Fretboard`] with the given number of [`Frets`], using
    /// standard tuning for a six-string instrument (E2, A2, D3, G3, B3, E4).
    ///
    /// The bound on `frets` is the machine limit: the highest open string
    /// sits 5 semitones below the reference, and the offset of its last
    /// fret must still fit in an `i64`.
    pub fn new(frets: Frets) -> (r: Self)
        requires
            frets <= i64::MAX + 5,
        ensures
            r@.frets == frets,
            r@.strings.len() == 6,
            fretboard_wf(r@),
            forall|i: int|
                0 <= i < 6 ==> #[trigger] r@.strings[i] == (StringView {
                    pitch: standard_tuning_root_spec(i),
                    frets: fret_seq_spec(standard_tuning_root_spec(i), frets as nat),
                    fret_count: frets as nat,
                }),
    {
        proof {
            reveal_strlit("E");
            reveal_strlit("A");
            reveal_strlit("D");
            reveal_strlit("G");
            reveal_strlit("B");
            assert(("E")@ =~= seq!['E']);
            assert(("A")@ =~= seq!['A']);
            assert(("D")@ =~= seq!['D']);
            assert(("G")@ =~= seq!['G']);
            assert(("B")@ =~= seq!['B']);
            assert(crate::utility::capitalize_spec(seq!['E']) =~= seq!['E']);
            assert(crate::utility::capitalize_spec(seq!['A']) =~= seq!['A']);
            assert(crate::utility::capitalize_spec(seq!['D']) =~= seq!['D']);
            assert(crate::utility::capitalize_spec(seq!['G']) =~= seq!['G']);
            assert(crate::utility::capitalize_spec(seq!['B']) =~= seq!['B']);
        }
        let mut strings: Vec<String> = Vec::new();
        strings.push(String::new(Pitch::new("E", 2), frets));
        strings.push(String::new(Pitch::new("A", 2), frets));
        strings.push(String::new(Pitch::new("D", 3), frets));
        strings.push(String::new(Pitch::new("G", 3), frets));
        strings.push(String::new(Pitch::new("B", 3), frets));
        strings.push(String::new(Pitch::new("E", 4), frets));
        let r = Self { strings, frets };
        proof {
            assert(forall|i: int|
                0 <= i < 6 ==> #[trigger] r@.strings[i] =~= (StringView {
                    pitch: standard_tuning_root_spec(i),
                    frets: fret_seq_spec(standard_tuning_root_spec(i), frets as nat),
                    fret_count: frets as nat,
                }));
        }
        r
    }

    /// Return the [`Vec`] of [`String`]s.
    pub fn strings(&self) -> (r: &Vec<String>)
        ensures
            r@.map_values(|s: String| s@) == self@.strings,
    {
        &self.strings
    }

    /// Return the number of [`Frets`].
    pub fn frets(&self) -> (r: &Frets)
        ensures
            *r == self@.frets,
    {
        &self.frets
    }
}

} // verus!
