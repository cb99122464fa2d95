//! The twelve canonical note spellings of the chromatic scale, in order
//! starting at C, and the per-note semitone offset table derived from them
//! (C = -9 up to B = +2, so that A carries offset 0).

use vstd::prelude::*;

verus! {

/// The name of the chromatic note at index `j` (0 = C, 1 = C#, ..., 11 = B).
pub open spec fn note_name_spec(j: int) -> Seq<char> {
    if j == 0 {
        seq!['C']
    } else if j == 1 {
        seq!['C', '#']
    } else if j == 2 {
        seq!['D']
    } else if j == 3 {
        seq!['D', '#']
    } else if j == 4 {
        seq!['E']
    } else if j == 5 {
        seq!['F']
    } else if j == 6 {
        seq!['F', '#']
    } else if j == 7 {
        seq!['G']
    } else if j == 8 {
        seq!['G', '#']
    } else if j == 9 {
        seq!['A']
    } else if j == 10 {
        seq!['A', '#']
    } else if j == 11 {
        seq!['B']
    } else {
        Seq::empty()
    }
}

/// The chromatic index of a note name, or -1 when the name is not one of the
/// twelve canonical spellings.
pub open spec fn note_index_spec(name: Seq<char>) -> int {
    if name == note_name_spec(0) {
        0
    } else if name == note_name_spec(1) {
        1
    } else if name == note_name_spec(2) {
        2
    } else if name == note_name_spec(3) {
        3
    } else if name == note_name_spec(4) {
        4
    } else if name == note_name_spec(5) {
        5
    } else if name == note_name_spec(6) {
        6
    } else if name == note_name_spec(7) {
        7
    } else if name == note_name_spec(8) {
        8
    } else if name == note_name_spec(9) {
        9
    } else if name == note_name_spec(10) {
        10
    } else if name == note_name_spec(11) {
        11
    } else {
        -1
    }
}

/// The semitone offset a note name contributes within its octave: index - 9
/// for a canonical name, and 0 as the silent fallback for any other string.
pub open spec fn note_offset_spec(name: Seq<char>) -> int {
    if note_index_spec(name) >= 0 {
        note_index_spec(name) - 9
    } else {
        0
    }
}

/// Whether chromatic index `j` carries a sharp spelling (C#, D#, F#, G#, A#).
pub open spec fn sharp_index_spec(j: int) -> bool {
    j == 1 || j == 3 || j == 6 || j == 8 || j == 10
}

/// The name of the chromatic note at index `j`.
pub fn note_name(j: usize) -> (r: &'static str)
    requires
        0 <= j < 12,
    ensures
        r@ == note_name_spec(j as int),
{
    proof {
        reveal_strlit("C");
        reveal_strlit("C#");
        reveal_strlit("D");
        reveal_strlit("D#");
        reveal_strlit("E");
        reveal_strlit("F");
        reveal_strlit("F#");
        reveal_strlit("G");
        reveal_strlit("G#");
        reveal_strlit("A");
        reveal_strlit("A#");
        reveal_strlit("B");
        assert(("C")@ =~= seq!['C']);
        assert(("C#")@ =~= seq!['C', '#']);
        assert(("D")@ =~= seq!['D']);
        assert(("D#")@ =~= seq!['D', '#']);
        assert(("E")@ =~= seq!['E']);
        assert(("F")@ =~= seq!['F']);
        assert(("F#")@ =~= seq!['F', '#']);
        assert(("G")@ =~= seq!['G']);
        assert(("G#")@ =~= seq!['G', '#']);
        assert(("A")@ =~= seq!['A']);
        assert(("A#")@ =~= seq!['A', '#']);
        assert(("B")@ =~= seq!['B']);
    }
    match j {
        0 => "C",
        1 => "C#",
        2 => "D",
        3 => "D#",
        4 => "E",
        5 => "F",
        6 => "F#",
        7 => "G",
        8 => "G#",
        9 => "A",
        10 => "A#",
        _ => "B",
    }
}

/// The chromatic index of a note name, or -1 when the name is not one of the
/// twelve canonical spellings.
pub fn note_index(name: &str) -> (i: i64)
    ensures
        i == note_index_spec(name@),
        -1 <= i < 12,
{
    let n = name.unicode_len();
    if n == 1 {
        let c = name.get_char(0);
        proof {
            assert(name@ =~= seq![name@[0]]);
        }
        match c {
            'C' => 0,
            'D' => 2,
            'E' => 4,
            'F' => 5,
            'G' => 7,
            'A' => 9,
            'B' => 11,
            _ => -1,
        }
    } else if n == 2 {
        let c0 = name.get_char(0);
        let c1 = name.get_char(1);
        proof {
            assert(name@ =~= seq![name@[0], name@[1]]);
        }
        if c1 == '#' {
            match c0 {
                'C' => 1,
                'D' => 3,
                'F' => 6,
                'G' => 8,
                'A' => 10,
                _ => -1,
            }
        } else {
            -1
        }
    } else {
        -1
    }
}

/// The semitone offset of a note name within its octave, with the silent
/// fallback to 0 for an unrecognized name.
pub fn note_offset(name: &str) -> (o: i64)
    ensures
        o == note_offset_spec(name@),
        -9 <= o <= 2,
{
    let i = note_index(name);
    if i >= 0 {
        i - 9
    } else {
        0
    }
}

/// A canonical note name is already capitalized and is found in the table at
/// its own index.
pub proof fn lemma_note_name_canonical(j: int)
    requires
        0 <= j < 12,
    ensures
        note_index_spec(note_name_spec(j)) == j,
        crate::utility::capitalize_spec(note_name_spec(j)) == note_name_spec(j),
{
    assert(crate::utility::capitalize_spec(note_name_spec(j)) =~= note_name_spec(j));
}

} // verus!
