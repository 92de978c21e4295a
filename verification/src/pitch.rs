use vstd::prelude::*;

verus! {

/// The canonical chromatic note name at index `i`, for `0 <= i < 12`.
/// The catalogue is chromatically ordered starting at A, with sharps as
/// the only accidental spelling.
pub open spec fn note_name(i: int) -> Seq<char> {
    if i == 0 {
        "A"@
    } else if i == 1 {
        "A#"@
    } else if i == 2 {
        "B"@
    } else if i == 3 {
        "C"@
    } else if i == 4 {
        "C#"@
    } else if i == 5 {
        "D"@
    } else if i == 6 {
        "D#"@
    } else if i == 7 {
        "E"@
    } else if i == 8 {
        "F"@
    } else if i == 9 {
        "F#"@
    } else if i == 10 {
        "G"@
    } else {
        "G#"@
    }
}

/// The chromatic index of a note name, or `None` when the name is not one
/// of the twelve canonical spellings.
pub open spec fn note_index_of(s: Seq<char>) -> Option<int> {
    if s == "A"@ {
        Some(0int)
    } else if s == "A#"@ {
        Some(1int)
    } else if s == "B"@ {
        Some(2int)
    } else if s == "C"@ {
        Some(3int)
    } else if s == "C#"@ {
        Some(4int)
    } else if s == "D"@ {
        Some(5int)
    } else if s == "D#"@ {
        Some(6int)
    } else if s == "E"@ {
        Some(7int)
    } else if s == "F"@ {
        Some(8int)
    } else if s == "F#"@ {
        Some(9int)
    } else if s == "G"@ {
        Some(10int)
    } else if s == "G#"@ {
        Some(11int)
    } else {
        None
    }
}

/// The natural (non-accidental) note name at index `i`, for `0 <= i < 7`,
/// in alphabetical order.
pub open spec fn natural_name(i: int) -> Seq<char> {
    if i == 0 {
        "A"@
    } else if i == 1 {
        "B"@
    } else if i == 2 {
        "C"@
    } else if i == 3 {
        "D"@
    } else if i == 4 {
        "E"@
    } else if i == 5 {
        "F"@
    } else {
        "G"@
    }
}

/// Relies on str's `PartialEq`: two string slices compare equal exactly
/// when their character sequences are equal.
#[verifier::external_body]
pub(crate) fn str_eq(a: &str, b: &str) -> (r: bool)
    ensures
        r == (a@ == b@),
{
    a == b
}

/// Looks a note name up in the pitch class table, returning its chromatic
/// index when the name is one of the twelve canonical spellings.
pub fn note_index(note: &str) -> (r: Option<usize>)
    ensures
        match r {
            Some(i) => i < 12 && note_index_of(note@) == Some(i as int),
            None => note_index_of(note@) is None,
        },
{
    if str_eq(note, "A") {
        Some(0)
    } else if str_eq(note, "A#") {
        Some(1)
    } else if str_eq(note, "B") {
        Some(2)
    } else if str_eq(note, "C") {
        Some(3)
    } else if str_eq(note, "C#") {
        Some(4)
    } else if str_eq(note, "D") {
        Some(5)
    } else if str_eq(note, "D#") {
        Some(6)
    } else if str_eq(note, "E") {
        Some(7)
    } else if str_eq(note, "F") {
        Some(8)
    } else if str_eq(note, "F#") {
        Some(9)
    } else if str_eq(note, "G") {
        Some(10)
    } else if str_eq(note, "G#") {
        Some(11)
    } else {
        None
    }
}

/// The canonical note name at a chromatic index.
pub fn note_name_at(i: usize) -> (r: &'static str)
    requires
        i < 12,
    ensures
        r@ == note_name(i as int),
{
    if i == 0 {
        "A"
    } else if i == 1 {
        "A#"
    } else if i == 2 {
        "B"
    } else if i == 3 {
        "C"
    } else if i == 4 {
        "C#"
    } else if i == 5 {
        "D"
    } else if i == 6 {
        "D#"
    } else if i == 7 {
        "E"
    } else if i == 8 {
        "F"
    } else if i == 9 {
        "F#"
    } else if i == 10 {
        "G"
    } else {
        "G#"
    }
}

/// The natural note name at an index into the alphabetical list of the
/// seven non-accidental notes.
pub fn natural_name_at(i: usize) -> (r: &'static str)
    requires
        i < 7,
    ensures
        r@ == natural_name(i as int),
{
    if i == 0 {
        "A"
    } else if i == 1 {
        "B"
    } else if i == 2 {
        "C"
    } else if i == 3 {
        "D"
    } else if i == 4 {
        "E"
    } else if i == 5 {
        "F"
    } else {
        "G"
    }
}

/// Every canonical note name maps back to its own index: the pitch class
/// table has no duplicate spellings.
pub proof fn lemma_note_index_of_name(i: int)
    requires
        0 <= i < 12,
    ensures
        note_index_of(note_name(i)) == Some(i),
{
    lemma_note_names_distinct();
}

/// The twelve canonical names differ pairwise in length or first character;
/// naming those terms lets the solver tell any two of them apart.
pub(crate) proof fn lemma_note_names_distinct()
    ensures
        "A"@.len() == 1 && "A"@[0] == 'A',
        "A#"@.len() == 2 && "A#"@[0] == 'A' && "A#"@[1] == '#',
        "B"@.len() == 1 && "B"@[0] == 'B',
        "C"@.len() == 1 && "C"@[0] == 'C',
        "C#"@.len() == 2 && "C#"@[0] == 'C',
        "D"@.len() == 1 && "D"@[0] == 'D',
        "D#"@.len() == 2 && "D#"@[0] == 'D',
        "E"@.len() == 1 && "E"@[0] == 'E',
        "F"@.len() == 1 && "F"@[0] == 'F',
        "F#"@.len() == 2 && "F#"@[0] == 'F',
        "G"@.len() == 1 && "G"@[0] == 'G',
        "G#"@.len() == 2 && "G#"@[0] == 'G',
{
    reveal_strlit("A");
    reveal_strlit("A#");
    reveal_strlit("B");
    reveal_strlit("C");
    reveal_strlit("C#");
    reveal_strlit("D");
    reveal_strlit("D#");
    reveal_strlit("E");
    reveal_strlit("F");
    reveal_strlit("F#");
    reveal_strlit("G");
    reveal_strlit("G#");
}

/// A name that the table assigns an index is the canonical name at that
/// index, and the index lies in `[0, 11]`.
pub proof fn lemma_note_name_of_index(s: Seq<char>)
    requires
        note_index_of(s) is Some,
    ensures
        0 <= note_index_of(s)->Some_0 < 12,
        note_name(note_index_of(s)->Some_0) == s,
{
}

} // verus!
