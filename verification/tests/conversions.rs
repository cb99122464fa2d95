use guitar::convert;
use guitar::utility::capitalize_first_letter;

#[test]
fn pitch_and_octave_to_semitones_reference() {
    assert_eq!(convert::pitch_and_octave_to_semitones("A", 4), 0);
    assert_eq!(convert::pitch_and_octave_to_semitones("C", 4), -9);
    assert_eq!(convert::pitch_and_octave_to_semitones("B", 4), 2);
    assert_eq!(convert::pitch_and_octave_to_semitones("E", 2), -29);
    assert_eq!(convert::pitch_and_octave_to_semitones("c#", 5), 4);
}

#[test]
fn pitch_and_octave_to_semitones_silent_fallback() {
    // An unrecognized name contributes offset 0; flats are not in the table.
    assert_eq!(convert::pitch_and_octave_to_semitones("H", 4), 0);
    assert_eq!(convert::pitch_and_octave_to_semitones("Db", 4), 0);
    assert_eq!(convert::pitch_and_octave_to_semitones("", 5), 12);
}

#[test]
fn semitones_to_midi_note_reference() {
    assert_eq!(convert::semitones_to_midi_note(0), 69);
    assert_eq!(convert::semitones_to_midi_note(1), 70);
    assert_eq!(convert::semitones_to_midi_note(-69), 0);
}

#[test]
fn midi_note_to_octave_reference() {
    assert_eq!(convert::midi_note_to_octave(70), 4);
    assert_eq!(convert::midi_note_to_octave(69), 4);
    assert_eq!(convert::midi_note_to_octave(60), 4);
    assert_eq!(convert::midi_note_to_octave(0), -1);
    assert_eq!(convert::midi_note_to_octave(-1), -2);
}

#[test]
fn semitones_to_cents_reference() {
    assert_eq!(convert::semitones_to_cents(1), 100);
    assert_eq!(convert::semitones_to_cents(0), 0);
    assert_eq!(convert::semitones_to_cents(-3), -300);
}

#[test]
fn cents_to_semitones_truncates_toward_zero() {
    assert_eq!(convert::cents_to_semitones(100), 1);
    assert_eq!(convert::cents_to_semitones(99), 0);
    assert_eq!(convert::cents_to_semitones(250), 2);
    assert_eq!(convert::cents_to_semitones(-150), -1);
}

#[test]
fn enharmonic_sharp_and_flat() {
    assert_eq!(convert::enharmonic("C#"), Some("Db".to_string()));
    assert_eq!(convert::enharmonic("Db"), Some("C#".to_string()));
    assert_eq!(convert::enharmonic("A#"), Some("Bb".to_string()));
    assert_eq!(convert::enharmonic("Bb"), Some("A#".to_string()));
    assert_eq!(convert::enharmonic("G#"), Some("Ab".to_string()));
}

#[test]
fn enharmonic_without_accidental() {
    assert_eq!(convert::enharmonic("C"), None);
    assert_eq!(convert::enharmonic("A"), None);
    assert_eq!(convert::enharmonic(""), None);
    // A lone lower-case b is capitalized into the note name B.
    assert_eq!(convert::enharmonic("b"), None);
}

#[test]
fn enharmonic_wraps_at_the_boundaries() {
    assert_eq!(convert::enharmonic("Cb"), Some("B".to_string()));
    assert_eq!(convert::enharmonic("Fb"), Some("E".to_string()));
    assert_eq!(convert::enharmonic("E#"), Some("F".to_string()));
    assert_eq!(convert::enharmonic("B#"), Some("C".to_string()));
}

#[test]
fn enharmonic_capitalizes_and_falls_back() {
    assert_eq!(convert::enharmonic("bb"), Some("A#".to_string()));
    assert_eq!(convert::enharmonic("c#"), Some("Db".to_string()));
    // An unknown letter falls back to the offset of C.
    assert_eq!(convert::enharmonic("Z#"), Some("Db".to_string()));
}

#[test]
fn semitones_to_pitch_reference() {
    let p = convert::semitones_to_pitch(0, 69);
    assert_eq!(p.pitch(), "A");
    assert_eq!(p.octave(), 4);
    assert_eq!(p.semitones(), 0);
    assert_eq!(p.base_midi_note(), 69);

    let q = convert::semitones_to_pitch(1, 69);
    assert_eq!(q.pitch(), "A#");
    assert_eq!(q.octave(), 4);
    assert_eq!(q.semitones(), 1);

    let r = convert::semitones_to_pitch(-1, 69);
    assert_eq!(r.pitch(), "G#");
    assert_eq!(r.octave(), 4);
    assert_eq!(r.semitones(), -1);
}

#[test]
fn capitalize_first_letter_reference() {
    assert_eq!(capitalize_first_letter("c#"), "C#");
    assert_eq!(capitalize_first_letter("db"), "Db");
    assert_eq!(capitalize_first_letter("A"), "A");
    assert_eq!(capitalize_first_letter(""), "");
    assert_eq!(capitalize_first_letter("bb"), "Bb");
}

#[test]
fn note_name_table() {
    let names = [
        "C", "C#", "D", "D#", "E", "F", "F#", "G", "G#", "A", "A#", "B",
    ];
    for (j, name) in names.iter().enumerate() {
        assert_eq!(guitar::note_name(j), *name);
    }
}
