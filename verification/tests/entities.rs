use guitar::{Fretboard, Note, Pitch};

#[test]
fn pitch_new_at_the_reference() {
    let p = Pitch::new("A", 4);
    assert_eq!(p.pitch(), "A");
    assert_eq!(p.semitones(), 0);
    assert_eq!(p.octave(), 4);
    assert_eq!(p.base_midi_note(), 69);
    assert_eq!(p.midi_note(), 69);
    assert_eq!(p.cents(), 0);
}

#[test]
fn pitch_new_capitalizes_and_respells_flats() {
    let p = Pitch::new("bb", 4);
    assert_eq!(p.pitch(), "A#");
    assert_eq!(p.semitones(), 1);
    assert_eq!(p.octave(), 4);

    let q = Pitch::new("c", 4);
    assert_eq!(q.pitch(), "C");
    assert_eq!(q.semitones(), -9);
}

#[test]
fn pitch_set_semitones_recomputes_dependents() {
    let mut p = Pitch::new("A", 4);
    p.set_semitones(1);
    assert_eq!(p.semitones(), 1);
    assert_eq!(p.pitch(), "A#");
    assert_eq!(p.octave(), 4);
    p.set_semitones(-29);
    assert_eq!(p.pitch(), "E");
    assert_eq!(p.octave(), 2);
}

#[test]
fn pitch_set_octave_recomputes_semitones() {
    let mut p = Pitch::new("A", 4);
    p.set_octave(5);
    assert_eq!(p.octave(), 5);
    assert_eq!(p.semitones(), 12);
}

#[test]
fn pitch_set_pitch_recomputes_semitones() {
    let mut p = Pitch::new("A", 4);
    p.set_pitch("c#");
    assert_eq!(p.pitch(), "C#");
    assert_eq!(p.semitones(), -8);
    assert_eq!(p.octave(), 4);
}

#[test]
fn pitch_set_base_midi_note_keeps_the_rest() {
    let mut p = Pitch::new("A", 4);
    p.set_base_midi_note(60);
    assert_eq!(p.base_midi_note(), 60);
    assert_eq!(p.semitones(), 0);
    assert_eq!(p.pitch(), "A");
    assert_eq!(p.octave(), 4);
}

#[test]
fn pitch_enharmonic_keeps_the_pitch() {
    let p = Pitch::new("C#", 4);
    let e = p.enharmonic().unwrap();
    assert_eq!(e.pitch(), "Db");
    assert_eq!(e.semitones(), p.semitones());
    assert_eq!(e.octave(), p.octave());
    assert_eq!(e.base_midi_note(), p.base_midi_note());
    assert!(Pitch::new("A", 4).enharmonic().is_none());
}

#[test]
fn pitch_new_from_semitones_round_trips() {
    for s in [-29, -1, 0, 1, 12] {
        let p = Pitch::new_from_semitones(s);
        assert_eq!(p.semitones(), s);
    }
    let p = Pitch::new_from_semitones(1);
    assert_eq!(p.pitch(), "A#");
    assert_eq!(p.octave(), 4);
}

#[test]
fn pitch_new_from_complete_stores_raw_fields() {
    let p = Pitch::new_from_complete("db", 7, 60, 3);
    assert_eq!(p.pitch(), "db");
    assert_eq!(p.semitones(), 7);
    assert_eq!(p.base_midi_note(), 60);
    assert_eq!(p.octave(), 3);
}

#[test]
fn pitch_new_with_reference() {
    let p = Pitch::new_with_reference("A", 4, 60);
    assert_eq!(p.pitch(), "A");
    assert_eq!(p.semitones(), 0);
    assert_eq!(p.base_midi_note(), 60);
    assert_eq!(p.octave(), 4);
}

#[test]
fn string_frets_step_by_semitones() {
    let s = guitar::string::String::new(Pitch::new("E", 2), 5);
    assert_eq!(*s.fret_count(), 5);
    assert_eq!(s.frets().len(), 5);
    assert_eq!(s.pitch().semitones(), -29);
    for (k, fret) in s.frets().iter().enumerate() {
        assert_eq!(fret.semitones(), -29 + k as i64);
    }
    assert_eq!(s.frets()[0].pitch(), "E");
    assert_eq!(s.frets()[1].pitch(), "F");
    assert_eq!(s.frets()[1].octave(), 2);
}

#[test]
fn string_set_pitch_regenerates_frets() {
    let mut s = guitar::string::String::new(Pitch::new("E", 2), 4);
    s.set_pitch(Pitch::new("A", 2));
    assert_eq!(*s.fret_count(), 4);
    assert_eq!(s.pitch().pitch(), "A");
    for (k, fret) in s.frets().iter().enumerate() {
        assert_eq!(fret.semitones(), -24 + k as i64);
    }
}

#[test]
fn string_set_fret_count_regenerates_frets() {
    let mut s = guitar::string::String::new(Pitch::new("E", 2), 4);
    s.set_fret_count(7);
    assert_eq!(*s.fret_count(), 7);
    assert_eq!(s.frets().len(), 7);
    for (k, fret) in s.frets().iter().enumerate() {
        assert_eq!(fret.semitones(), -29 + k as i64);
    }
}

#[test]
fn fretboard_standard_tuning() {
    let fb = Fretboard::new(12);
    assert_eq!(*fb.frets(), 12);
    assert_eq!(fb.strings().len(), 6);
    let names = ["E", "A", "D", "G", "B", "E"];
    let octaves = [2, 2, 3, 3, 3, 4];
    let semitones = [-29, -24, -19, -14, -10, -5];
    for (i, s) in fb.strings().iter().enumerate() {
        assert_eq!(s.pitch().pitch(), names[i]);
        assert_eq!(s.pitch().octave(), octaves[i]);
        assert_eq!(s.pitch().semitones(), semitones[i]);
        assert_eq!(*s.fret_count(), 12);
        assert_eq!(s.frets().len(), 12);
        for (k, fret) in s.frets().iter().enumerate() {
            assert_eq!(fret.semitones(), semitones[i] + k as i64);
        }
    }
}

#[test]
fn fretboard_from_strings() {
    let strings = vec![
        guitar::string::String::new(Pitch::new("D", 2), 3),
        guitar::string::String::new(Pitch::new("G", 2), 3),
    ];
    let fb = Fretboard::new_from_strings(strings, 3);
    assert_eq!(*fb.frets(), 3);
    assert_eq!(fb.strings().len(), 2);
    assert_eq!(fb.strings()[0].pitch().pitch(), "D");
    assert_eq!(fb.strings()[1].pitch().pitch(), "G");
}

#[test]
fn note_wraps_a_pitch() {
    let mut n = Note::new("A", 4);
    assert_eq!(n.pitch().semitones(), 0);
    n.pitch_mut().set_semitones(2);
    assert_eq!(n.pitch().pitch(), "B");
    assert_eq!(n.pitch().semitones(), 2);

    let mut n2 = Note::new_from_pitch(Pitch::new("C", 3));
    assert_eq!(n2.pitch().pitch(), "C");
    assert_eq!(n2.pitch().semitones(), -21);
}

#[test]
fn pitch_builder_prefers_name_and_octave() {
    let p = Pitch::new_from_builder(Some("bb"), Some(7), 69, Some(4));
    assert_eq!(p.pitch(), "A#");
    assert_eq!(p.semitones(), 1);
    assert_eq!(p.base_midi_note(), 69);

    let q = Pitch::new_from_builder(Some("A"), None, 60, Some(4));
    assert_eq!(q.pitch(), "A");
    assert_eq!(q.semitones(), 0);
    assert_eq!(q.base_midi_note(), 60);

    let r = Pitch::new_from_builder(None, Some(1), 69, Some(4));
    assert_eq!(r.pitch(), "A#");
    assert_eq!(r.semitones(), 1);

    let s = Pitch::new_from_builder(None, None, 69, None);
    assert_eq!(s.pitch(), "A");
    assert_eq!(s.semitones(), 0);
    assert_eq!(s.octave(), 4);
}
