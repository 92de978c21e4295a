use vstd::prelude::*;

use crate::TheoryError;
use crate::pitch::str_eq;

verus! {

/// The diatonic chord labels of a natural major key, in scale-degree
/// order, with the seventh degree marked diminished by a `/5b` suffix.
/// Defined only for the seven natural note names.
pub open spec fn chords_of_major(s: Seq<char>) -> Option<Seq<Seq<char>>> {
    if s == "A"@ {
        Some(seq!["A"@, "Bm"@, "C#m"@, "D"@, "E"@, "F#m"@, "G#/5b"@])
    } else if s == "B"@ {
        Some(seq!["B"@, "C#m"@, "D#m"@, "E"@, "F#"@, "G#m"@, "A#m/5b"@])
    } else if s == "C"@ {
        Some(seq!["C"@, "Dm"@, "Em"@, "F"@, "G"@, "Am"@, "B/5b"@])
    } else if s == "D"@ {
        Some(seq!["D"@, "Em"@, "F#m"@, "G"@, "A"@, "Bm"@, "C#/5b"@])
    } else if s == "E"@ {
        Some(seq!["E"@, "F#m"@, "G#m"@, "A"@, "B"@, "C#m"@, "D#/5b"@])
    } else if s == "F"@ {
        Some(seq!["F"@, "Gm"@, "Am"@, "Bb"@, "C"@, "Dm"@, "E/5b"@])
    } else if s == "G"@ {
        Some(seq!["G"@, "Am"@, "Bm"@, "C"@, "D"@, "Em"@, "F#/5b"@])
    } else {
        None
    }
}

/// The Greek mode name at index `m` in the fixed catalogue, for
/// `0 <= m < 7`.
pub open spec fn mode_name(m: int) -> Seq<char> {
    if m == 0 {
        "ionian"@
    } else if m == 1 {
        "dorian"@
    } else if m == 2 {
        "phrygian"@
    } else if m == 3 {
        "lidian"@
    } else if m == 4 {
        "mixolydian"@
    } else if m == 5 {
        "aeolian"@
    } else {
        "locrian"@
    }
}

/// The seven scale-degree alteration labels of a Greek mode, relative to
/// the major scale. Defined only for the seven mode names.
pub open spec fn mode_degree_pattern(s: Seq<char>) -> Option<Seq<Seq<char>>> {
    if s == "ionian"@ {
        Some(seq!["T"@, "2"@, "3"@, "4"@, "5"@, "6"@, "7"@])
    } else if s == "dorian"@ {
        Some(seq!["T"@, "2"@, "3b"@, "4"@, "5"@, "6"@, "7b"@])
    } else if s == "phrygian"@ {
        Some(seq!["T"@, "2b"@, "3b"@, "4"@, "5"@, "6b"@, "7b"@])
    } else if s == "lidian"@ {
        Some(seq!["T"@, "2"@, "3"@, "4#"@, "5"@, "6"@, "7"@])
    } else if s == "mixolydian"@ {
        Some(seq!["T"@, "2"@, "3"@, "4"@, "5"@, "6"@, "7b"@])
    } else if s == "aeolian"@ {
        Some(seq!["T"@, "2"@, "3b"@, "4"@, "5"@, "6b"@, "7b"@])
    } else if s == "locrian"@ {
        Some(seq!["T"@, "2b"@, "3b"@, "4"@, "5b"@, "6b"@, "7b"@])
    } else {
        None
    }
}

/// The free-text mood description of a Greek mode. Defined only for the
/// seven mode names.
pub open spec fn mode_quirk(s: Seq<char>) -> Option<Seq<char>> {
    if s == "ionian"@ {
        Some("happy, energetic, popular"@)
    } else if s == "dorian"@ {
        Some("latino, swing, party, dance"@)
    } else if s == "phrygian"@ {
        Some("enigma, spanish, flamenco"@)
    } else if s == "lidian"@ {
        Some("unexpected, imponent"@)
    } else if s == "mixolydian"@ {
        Some("blues, country, regional"@)
    } else if s == "aeolian"@ {
        Some("sad, introspective, reflective, hope"@)
    } else if s == "locrian"@ {
        Some("unstable, conflict, tense"@)
    } else {
        None
    }
}

/// The free-text tonal-signature label of a Greek mode. Defined only for
/// the seven mode names.
pub open spec fn mode_tonal_signature(s: Seq<char>) -> Option<Seq<char>> {
    if s == "ionian"@ {
        Some("perfect 4th"@)
    } else if s == "dorian"@ {
        Some("major 6th"@)
    } else if s == "phrygian"@ {
        Some("minor 2nd"@)
    } else if s == "lidian"@ {
        Some("augmented 4th"@)
    } else if s == "mixolydian"@ {
        Some("minor 7th"@)
    } else if s == "aeolian"@ {
        Some("minor 6th"@)
    } else if s == "locrian"@ {
        Some("minor 2nd & diminished 5th"@)
    } else {
        None
    }
}

/// The diatonic chords of a natural major key; a key name outside the
/// seven natural notes is rejected.
pub fn get_chords_for_major_note(note: &str) -> (r: Result<Vec<&'static str>, TheoryError>)
    ensures
        match chords_of_major(note@) {
            Some(cs) => r is Ok && r->Ok_0.deep_view() == cs,
            None => r == Err::<Vec<&'static str>, TheoryError>(TheoryError::UnknownNote),
        },
{
    let chords: Vec<&'static str> = if str_eq(note, "A") {
        vec!["A", "Bm", "C#m", "D", "E", "F#m", "G#/5b"]
    } else if str_eq(note, "B") {
        vec!["B", "C#m", "D#m", "E", "F#", "G#m", "A#m/5b"]
    } else if str_eq(note, "C") {
        vec!["C", "Dm", "Em", "F", "G", "Am", "B/5b"]
    } else if str_eq(note, "D") {
        vec!["D", "Em", "F#m", "G", "A", "Bm", "C#/5b"]
    } else if str_eq(note, "E") {
        vec!["E", "F#m", "G#m", "A", "B", "C#m", "D#/5b"]
    } else if str_eq(note, "F") {
        vec!["F", "Gm", "Am", "Bb", "C", "Dm", "E/5b"]
    } else if str_eq(note, "G") {
        vec!["G", "Am", "Bm", "C", "D", "Em", "F#/5b"]
    } else {
        return Err(TheoryError::UnknownNote);
    };
    proof {
        assert(chords.deep_view() =~= chords_of_major(note@)->Some_0);
    }
    Ok(chords)
}

/// The scale-degree alteration pattern of a Greek mode; a name outside
/// the seven modes is rejected.
pub fn get_greek_mode_scale(mode: &str) -> (r: Result<Vec<&'static str>, TheoryError>)
    ensures
        match mode_degree_pattern(mode@) {
            Some(ds) => r is Ok && r->Ok_0.deep_view() == ds,
            None => r == Err::<Vec<&'static str>, TheoryError>(TheoryError::UnknownMode),
        },
{
    let degrees: Vec<&'static str> = if str_eq(mode, "ionian") {
        vec!["T", "2", "3", "4", "5", "6", "7"]
    } else if str_eq(mode, "dorian") {
        vec!["T", "2", "3b", "4", "5", "6", "7b"]
    } else if str_eq(mode, "phrygian") {
        vec!["T", "2b", "3b", "4", "5", "6b", "7b"]
    } else if str_eq(mode, "lidian") {
        vec!["T", "2", "3", "4#", "5", "6", "7"]
    } else if str_eq(mode, "mixolydian") {
        vec!["T", "2", "3", "4", "5", "6", "7b"]
    } else if str_eq(mode, "aeolian") {
        vec!["T", "2", "3b", "4", "5", "6b", "7b"]
    } else if str_eq(mode, "locrian") {
        vec!["T", "2b", "3b", "4", "5b", "6b", "7b"]
    } else {
        return Err(TheoryError::UnknownMode);
    };
    proof {
        assert(degrees.deep_view() =~= mode_degree_pattern(mode@)->Some_0);
    }
    Ok(degrees)
}

/// The mood description of a Greek mode; a name outside the seven modes
/// is rejected.
pub fn get_greek_mode_quirk(mode: &str) -> (r: Result<&'static str, TheoryError>)
    ensures
        match mode_quirk(mode@) {
            Some(q) => r is Ok && r->Ok_0@ == q,
            None => r == Err::<&'static str, TheoryError>(TheoryError::UnknownMode),
        },
{
    if str_eq(mode, "ionian") {
        Ok("happy, energetic, popular")
    } else if str_eq(mode, "dorian") {
        Ok("latino, swing, party, dance")
    } else if str_eq(mode, "phrygian") {
        Ok("enigma, spanish, flamenco")
    } else if str_eq(mode, "lidian") {
        Ok("unexpected, imponent")
    } else if str_eq(mode, "mixolydian") {
        Ok("blues, country, regional")
    } else if str_eq(mode, "aeolian") {
        Ok("sad, introspective, reflective, hope")
    } else if str_eq(mode, "locrian") {
        Ok("unstable, conflict, tense")
    } else {
        Err(TheoryError::UnknownMode)
    }
}

/// The tonal-signature label of a Greek mode; a name outside the seven
/// modes is rejected.
pub fn get_greek_mode_tonal_signature(mode: &str) -> (r: Result<&'static str, TheoryError>)
    ensures
        match mode_tonal_signature(mode@) {
            Some(t) => r is Ok && r->Ok_0@ == t,
            None => r == Err::<&'static str, TheoryError>(TheoryError::UnknownMode),
        },
{
    if str_eq(mode, "ionian") {
        Ok("perfect 4th")
    } else if str_eq(mode, "dorian") {
        Ok("major 6th")
    } else if str_eq(mode, "phrygian") {
        Ok("minor 2nd")
    } else if str_eq(mode, "lidian") {
        Ok("augmented 4th")
    } else if str_eq(mode, "mixolydian") {
        Ok("minor 7th")
    } else if str_eq(mode, "aeolian") {
        Ok("minor 6th")
    } else if str_eq(mode, "locrian") {
        Ok("minor 2nd & diminished 5th")
    } else {
        Err(TheoryError::UnknownMode)
    }
}

/// The mode name at an index into the fixed catalogue of seven.
pub fn mode_name_at(m: usize) -> (r: &'static str)
    requires
        m < 7,
    ensures
        r@ == mode_name(m as int),
{
    if m == 0 {
        "ionian"
    } else if m == 1 {
        "dorian"
    } else if m == 2 {
        "phrygian"
    } else if m == 3 {
        "lidian"
    } else if m == 4 {
        "mixolydian"
    } else if m == 5 {
        "aeolian"
    } else {
        "locrian"
    }
}

/// The seven mode names differ pairwise in length or first character;
/// naming those terms lets the solver tell any two of them apart.
proof fn lemma_mode_names_distinct()
    ensures
        "ionian"@.len() == 6 && "ionian"@[0] == 'i',
        "dorian"@.len() == 6 && "dorian"@[0] == 'd',
        "phrygian"@.len() == 8 && "phrygian"@[0] == 'p',
        "lidian"@.len() == 6 && "lidian"@[0] == 'l',
        "mixolydian"@.len() == 10 && "mixolydian"@[0] == 'm',
        "aeolian"@.len() == 7 && "aeolian"@[0] == 'a',
        "locrian"@.len() == 7 && "locrian"@[0] == 'l',
{
    reveal_strlit("ionian");
    reveal_strlit("dorian");
    reveal_strlit("phrygian");
    reveal_strlit("lidian");
    reveal_strlit("mixolydian");
    reveal_strlit("aeolian");
    reveal_strlit("locrian");
}

/// Every name in the mode catalogue has an entry in each of the three
/// mode tables.
pub proof fn lemma_mode_tables_defined(m: int)
    requires
        0 <= m < 7,
    ensures
        mode_degree_pattern(mode_name(m)) is Some,
        mode_quirk(mode_name(m)) is Some,
        mode_tonal_signature(mode_name(m)) is Some,
{
    lemma_mode_names_distinct();
}

/// Every mode's degree-alteration pattern has exactly seven entries, and
/// the first is always the tonic label `T`.
pub proof fn lemma_degree_pattern_shape(m: int)
    requires
        0 <= m < 7,
    ensures
        mode_degree_pattern(mode_name(m)) is Some,
        mode_degree_pattern(mode_name(m))->Some_0.len() == 7,
        mode_degree_pattern(mode_name(m))->Some_0[0] == "T"@,
{
    lemma_mode_names_distinct();
}

/// Every natural note name keys an entry in the chord table.
pub proof fn lemma_chords_defined(i: int)
    requires
        0 <= i < 7,
    ensures
        chords_of_major(crate::pitch::natural_name(i)) is Some,
        chords_of_major(crate::pitch::natural_name(i))->Some_0.len() == 7,
{
    crate::pitch::lemma_note_names_distinct();
}

} // verus!
