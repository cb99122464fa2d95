//! Small string helpers shared by the conversion functions.

use vstd::prelude::*;
use vstd::string::*;

verus! {

/// The ASCII upper-case image of a character: `'a'..='z'` map to
/// `'A'..='Z'`, every other character is unchanged.
pub open spec fn upper_char_spec(c: char) -> char {
    if 'a' <= c && c <= 'z' {
        ((c as u32) - 32) as char
    } else {
        c
    }
}

/// A string with its first character upper-cased (ASCII) and the rest kept.
pub open spec fn capitalize_spec(s: Seq<char>) -> Seq<char> {
    if s.len() == 0 {
        s
    } else {
        seq![upper_char_spec(s[0])] + s.subrange(1, s.len() as int)
    }
}

/// Capitalizing leaves an already-capitalized string unchanged.
pub proof fn lemma_capitalize_idempotent(s: Seq<char>)
    ensures
        capitalize_spec(capitalize_spec(s)) == capitalize_spec(s),
{
    if s.len() > 0 {
        assert(capitalize_spec(capitalize_spec(s)) =~= capitalize_spec(s));
    }
}

/// The upper-case spelling of an ASCII lower-case letter, as a one-character
/// string; `None` for every other character.
fn ascii_upper_str(c: char) -> (r: Option<&'static str>)
    ensures
        r is Some <==> 'a' <= c && c <= 'z',
        r is Some ==> r.unwrap()@ == seq![upper_char_spec(c)],
{
    proof {
        reveal_strlit("A");
        reveal_strlit("B");
        reveal_strlit("C");
        reveal_strlit("D");
        reveal_strlit("E");
        reveal_strlit("F");
        reveal_strlit("G");
        reveal_strlit("H");
        reveal_strlit("I");
        reveal_strlit("J");
        reveal_strlit("K");
        reveal_strlit("L");
        reveal_strlit("M");
        reveal_strlit("N");
        reveal_strlit("O");
        reveal_strlit("P");
        reveal_strlit("Q");
        reveal_strlit("R");
        reveal_strlit("S");
        reveal_strlit("T");
        reveal_strlit("U");
        reveal_strlit("V");
        reveal_strlit("W");
        reveal_strlit("X");
        reveal_strlit("Y");
        reveal_strlit("Z");
        assert(("A")@ =~= seq!['A']);
        assert(("B")@ =~= seq!['B']);
        assert(("C")@ =~= seq!['C']);
        assert(("D")@ =~= seq!['D']);
        assert(("E")@ =~= seq!['E']);
        assert(("F")@ =~= seq!['F']);
        assert(("G")@ =~= seq!['G']);
        assert(("H")@ =~= seq!['H']);
        assert(("I")@ =~= seq!['I']);
        assert(("J")@ =~= seq!['J']);
        assert(("K")@ =~= seq!['K']);
        assert(("L")@ =~= seq!['L']);
        assert(("M")@ =~= seq!['M']);
        assert(("N")@ =~= seq!['N']);
        assert(("O")@ =~= seq!['O']);
        assert(("P")@ =~= seq!['P']);
        assert(("Q")@ =~= seq!['Q']);
        assert(("R")@ =~= seq!['R']);
        assert(("S")@ =~= seq!['S']);
        assert(("T")@ =~= seq!['T']);
        assert(("U")@ =~= seq!['U']);
        assert(("V")@ =~= seq!['V']);
        assert(("W")@ =~= seq!['W']);
        assert(("X")@ =~= seq!['X']);
        assert(("Y")@ =~= seq!['Y']);
        assert(("Z")@ =~= seq!['Z']);
    }
    match c {
        'a' => Some("A"),
        'b' => Some("B"),
        'c' => Some("C"),
        'd' => Some("D"),
        'e' => Some("E"),
        'f' => Some("F"),
        'g' => Some("G"),
        'h' => Some("H"),
        'i' => Some("I"),
        'j' => Some("J"),
        'k' => Some("K"),
        'l' => Some("L"),
        'm' => Some("M"),
        'n' => Some("N"),
        'o' => Some("O"),
        'p' => Some("P"),
        'q' => Some("Q"),
        'r' => Some("R"),
        's' => Some("S"),
        't' => Some("T"),
        'u' => Some("U"),
        'v' => Some("V"),
        'w' => Some("W"),
        'x' => Some("X"),
        'y' => Some("Y"),
        'z' => Some("Z"),
        _ => None,
    }
}

/// Capitalize the first letter of a string.
///
/// Pitch names use plain ASCII letters, so only an ASCII lower-case first
/// character is upper-cased; everything else is returned unchanged.
pub fn capitalize_first_letter(string: &str) -> (r: String)
    ensures
        r@ == capitalize_spec(string@),
{
    let n = string.unicode_len();
    if n == 0 {
        let r = String::new();
        assert(r@ =~= capitalize_spec(string@));
        r
    } else {
        let c = string.get_char(0);
        match ascii_upper_str(c) {
            Some(up) => {
                let rest = string.substring_char(1, n);
                let r = String::from_str(up).concat(rest);
                assert(r@ =~= capitalize_spec(string@));
                r
            },
            None => {
                let r = String::from_str(string);
                assert(r@ =~= capitalize_spec(string@));
                r
            },
        }
    }
}

} // verus!
