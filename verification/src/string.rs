//! The [`String`] entity: one tuned string of a fretted instrument, with an
//! open-string [`Pitch`] and an eagerly built sequence of fret pitches, one
//! per fret, each one semitone above the previous.

use vstd::prelude::*;

use crate::convert::A4_MIDI_NOTE;
use crate::notes::note_name_spec;
use crate::pitch::{Pitch, PitchView};
use crate::unit::Frets;

verus! {

/// The mathematical state of a [`String`]: its open pitch, the state of each
/// fret's pitch in order, and the configured fret count.
#[verifier::ext_equal]
pub ghost struct StringView {
    pub pitch: PitchView,
    pub frets: Seq<PitchView>,
    pub fret_count: nat,
}

/// The state of the pitch at fret `k` of a string whose open pitch is
/// `root`: fret 0 is the open pitch itself, and every later fret is the
/// result of stepping the pitch `k` semitones up from the root.
pub open spec fn fret_pitch_spec(root: PitchView, k: int) -> PitchView {
    if k == 0 {
        root
    } else {
        PitchView {
            name: note_name_spec((root.semitones + k + root.base_midi_note) % 12),
            semitones: root.semitones + k,
            base_midi_note: root.base_midi_note,
            octave: (root.semitones + k + A4_MIDI_NOTE) / 12 - 1,
        }
    }
}

/// The whole fret sequence of a string with open pitch `root` and `n` frets.
pub open spec fn fret_seq_spec(root: PitchView, n: nat) -> Seq<PitchView> {
    Seq::new(n, |k: int| fret_pitch_spec(root, k))
}

/// Law: the fret sequence derived from an open pitch has one entry per
/// fret, and the pitch at fret `k` sits exactly `k` semitones above the
/// open pitch, under the same reference MIDI note.
pub proof fn lemma_fret_semitones(root: PitchView, n: nat, k: int)
    requires
        0 <= k < n,
    ensures
        fret_seq_spec(root, n).len() == n,
        fret_seq_spec(root, n)[k].semitones == root.semitones + k,
        fret_seq_spec(root, n)[k].base_midi_note == root.base_midi_note,
{
}

/// One tuned string: an open [`Pitch`] and its derived fret pitches.
#[derive(Debug)]
pub struct String {
    pitch: Pitch,
    frets: Vec<Pitch>,
    fret_count: usize,
}

impl View for String {
    type V = StringView;

    closed spec fn view(&self) -> StringView {
        StringView {
            pitch: self.pitch@,
            frets: self.frets@.map_values(|p: Pitch| p@),
            fret_count: self.fret_count as nat,
        }
    }
}

impl String {
    /// The invariant of a [`String`]: the fret sequence is exactly the one
    /// derived from the open pitch and the fret count.
    pub open spec fn wf(&self) -> bool {
        self@.frets == fret_seq_spec(self@.pitch, self@.fret_count)
    }

    /// Builds a [`String`] from an open pitch and a fret count, deriving the
    /// pitch of every fret.
    pub fn new(pitch: Pitch, fret_count: Frets) -> (r: Self)
        requires
            pitch@.semitones + fret_count <= i64::MAX,
        ensures
            r@.pitch == pitch@,
            r@.fret_count == fret_count,
            r@.frets == fret_seq_spec(pitch@, fret_count as nat),
            r.wf(),
    {
        let mut frets: Vec<Pitch> = Vec::new();
        let mut next_pitch = pitch.clone();
        let mut k: usize = 0;
        while k < fret_count
            invariant
                k <= fret_count,
                pitch@.semitones + fret_count <= i64::MAX,
                frets@.len() == k,
                forall|i: int| 0 <= i < k ==> #[trigger] frets@[i]@ == fret_pitch_spec(pitch@, i),
                next_pitch@ == fret_pitch_spec(pitch@, k as int),
            decreases fret_count - k,
        {
            let semitones = next_pitch.semitones();
            frets.push(next_pitch.clone());
            next_pitch.set_semitones(semitones + 1);
            k += 1;
        }
        let r = Self { pitch, frets, fret_count };
        proof {
            assert(r@.frets =~= fret_seq_spec(r@.pitch, fret_count as nat));
        }
        r
    }

    /// Returns the open [`Pitch`] of the [`String`].
    pub fn pitch(&self) -> (r: &Pitch)
        ensures
            r@ == self@.pitch,
    {
        &self.pitch
    }

    /// Returns the fret pitches of the [`String`], one per fret in ascending
    /// order.
    pub fn frets(&self) -> (r: &Vec<Pitch>)
        ensures
            r@.map_values(|p: Pitch| p@) == self@.frets,
    {
        &self.frets
    }

    /// Returns the number of frets of the [`String`].
    pub fn fret_count(&self) -> (r: &Frets)
        ensures
            *r == self@.fret_count,
    {
        &self.fret_count
    }

    /// Sets the open [`Pitch`] of the [`String`] and regenerates every fret
    /// pitch from it.
    pub fn set_pitch(&mut self, pitch: Pitch)
        requires
            old(self).wf(),
            pitch@.semitones + old(self)@.fret_count <= i64::MAX,
        ensures
            final(self)@ == (StringView {
                pitch: pitch@,
                frets: fret_seq_spec(pitch@, old(self)@.fret_count),
                fret_count: old(self)@.fret_count,
            }),
            final(self).wf(),
    {
        let ghost n0 = old(self)@.fret_count;
        let mut next_pitch = pitch.clone();
        let n = self.frets.len();
        proof {
            assert(self@.frets.len() == n0);
        }
        let mut i: usize = 0;
        while i < n
            invariant
                i <= n,
                n == n0,
                pitch@.semitones + n0 <= i64::MAX,
                self.frets@.len() == n,
                self.fret_count == old(self).fret_count,
                self.pitch == old(self).pitch,
                forall|j: int| 0 <= j < i ==> #[trigger] self.frets@[j]@ == fret_pitch_spec(
                    pitch@,
                    j,
                ),
                next_pitch@ == fret_pitch_spec(pitch@, i as int),
            decreases n - i,
        {
            let semitones = next_pitch.semitones();
            self.frets.set(i, next_pitch.clone());
            next_pitch.set_semitones(semitones + 1);
            i += 1;
        }
        self.pitch = pitch;
        assert(self@ =~= (StringView {
            pitch: self.pitch@,
            frets: fret_seq_spec(self.pitch@, n0),
            fret_count: n0,
        }));
    }

    /// Sets the fret count of the [`String`] and regenerates the whole fret
    /// sequence from the open pitch.
    pub fn set_fret_count(&mut self, fret_count: Frets)
        requires
            old(self)@.pitch.semitones + fret_count <= i64::MAX,
        ensures
            final(self)@ == (StringView {
                pitch: old(self)@.pitch,
                frets: fret_seq_spec(old(self)@.pitch, fret_count as nat),
                fret_count: fret_count as nat,
            }),
            final(self).wf(),
    {
        let mut frets: Vec<Pitch> = Vec::new();
        let mut next_pitch = self.pitch.clone();
        let mut k: usize = 0;
        while k < fret_count
            invariant
                k <= fret_count,
                self.pitch == old(self).pitch,
                self.fret_count == old(self).fret_count,
                self.pitch@.semitones + fret_count <= i64::MAX,
                frets@.len() == k,
                forall|i: int| 0 <= i < k ==> #[trigger] frets@[i]@ == fret_pitch_spec(
                    self.pitch@,
                    i,
                ),
                next_pitch@ == fret_pitch_spec(self.pitch@, k as int),
            decreases fret_count - k,
        {
            let semitones = next_pitch.semitones();
            frets.push(next_pitch.clone());
            next_pitch.set_semitones(semitones + 1);
            k += 1;
        }
        self.frets = frets;
        self.fret_count = fret_count;
        assert(self@ =~= (StringView {
            pitch: old(self)@.pitch,
            frets: fret_seq_spec(old(self)@.pitch, fret_count as nat),
            fret_count: fret_count as nat,
        }));
    }
}

} // verus!
