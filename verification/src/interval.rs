use vstd::prelude::*;

use crate::TheoryError;
use crate::pitch::{
    lemma_note_name_of_index, note_index, note_index_of, note_name, note_name_at, str_eq,
};
use vstd::arithmetic::div_mod::{
    lemma_add_mod_noop_right, lemma_mod_add_multiples_vanish, lemma_small_mod,
};

verus! {

/// The name of the interval at index `j` in the fixed catalogue,
/// for `0 <= j < 6`.
pub open spec fn interval_name(j: int) -> Seq<char> {
    if j == 0 {
        "third"@
    } else if j == 1 {
        "fifth"@
    } else if j == 2 {
        "seventh"@
    } else if j == 3 {
        "ninth"@
    } else if j == 4 {
        "eleventh"@
    } else {
        "thirteenth"@
    }
}

/// The semitone distance of the interval at index `j`, for `0 <= j < 6`.
pub open spec fn interval_steps(j: int) -> int {
    if j == 0 {
        4
    } else if j == 1 {
        7
    } else if j == 2 {
        10
    } else if j == 3 {
        13
    } else if j == 4 {
        16
    } else {
        19
    }
}

/// The semitone distance of a named interval, or `None` when the name is
/// not one of the six known intervals.
pub open spec fn interval_semitones_of(s: Seq<char>) -> Option<int> {
    if s == "third"@ {
        Some(4int)
    } else if s == "fifth"@ {
        Some(7int)
    } else if s == "seventh"@ {
        Some(10int)
    } else if s == "ninth"@ {
        Some(13int)
    } else if s == "eleventh"@ {
        Some(16int)
    } else if s == "thirteenth"@ {
        Some(19int)
    } else {
        None
    }
}

/// The canonical name of the note reached from chromatic index `i` by
/// moving `s` semitones up, wrapping around the twelve pitch classes.
pub open spec fn shifted_note(i: int, s: int) -> Seq<char> {
    note_name((i + s) % 12)
}

/// Looks an interval name up in the fixed mapping, returning its semitone
/// distance when the name is one of the six known intervals.
pub fn semitones_for(interval: &str) -> (r: Option<usize>)
    ensures
        match r {
            Some(k) => k < 20 && interval_semitones_of(interval@) == Some(k as int),
            None => interval_semitones_of(interval@) is None,
        },
{
    if str_eq(interval, "third") {
        Some(4)
    } else if str_eq(interval, "fifth") {
        Some(7)
    } else if str_eq(interval, "seventh") {
        Some(10)
    } else if str_eq(interval, "ninth") {
        Some(13)
    } else if str_eq(interval, "eleventh") {
        Some(16)
    } else if str_eq(interval, "thirteenth") {
        Some(19)
    } else {
        None
    }
}

/// The interval name at an index into the fixed catalogue of six.
pub fn interval_name_at(j: usize) -> (r: &'static str)
    requires
        j < 6,
    ensures
        r@ == interval_name(j as int),
{
    if j == 0 {
        "third"
    } else if j == 1 {
        "fifth"
    } else if j == 2 {
        "seventh"
    } else if j == 3 {
        "ninth"
    } else if j == 4 {
        "eleventh"
    } else {
        "thirteenth"
    }
}

/// The note reached from a root note by a raw semitone offset, computed by
/// wrapping the chromatic index modulo 12; rejects a root name outside the
/// pitch class table.
pub fn get_relative_note(note: &str, semitones_to_add: usize) -> (r: Result<
    &'static str,
    TheoryError,
>)
    ensures
        match note_index_of(note@) {
            Some(i) => r is Ok && r->Ok_0@ == shifted_note(i, semitones_to_add as int),
            None => r == Err::<&'static str, TheoryError>(TheoryError::UnknownNote),
        },
{
    match note_index(note) {
        Some(index) => {
            let wrapped: usize = (index + semitones_to_add % 12) % 12;
            proof {
                lemma_add_mod_noop_right(index as int, semitones_to_add as int, 12);
            }
            Ok(note_name_at(wrapped))
        },
        None => Err(TheoryError::UnknownNote),
    }
}

/// The note reached from a root note by a named interval: the interval's
/// semitone distance is looked up first, then added modulo 12. An unknown
/// interval name is rejected before the root note is examined.
pub fn get_relative_interval(note: &str, interval: &str) -> (r: Result<&'static str, TheoryError>)
    ensures
        match interval_semitones_of(interval@) {
            Some(k) => match note_index_of(note@) {
                Some(i) => r is Ok && r->Ok_0@ == shifted_note(i, k),
                None => r == Err::<&'static str, TheoryError>(TheoryError::UnknownNote),
            },
            None => r == Err::<&'static str, TheoryError>(TheoryError::UnknownInterval),
        },
{
    match semitones_for(interval) {
        Some(semitones_to_add) => get_relative_note(note, semitones_to_add),
        None => Err(TheoryError::UnknownInterval),
    }
}

/// Each interval name in the catalogue maps back to its own semitone
/// distance: the six names are pairwise distinct.
pub proof fn lemma_interval_semitones_of_name(j: int)
    requires
        0 <= j < 6,
    ensures
        interval_semitones_of(interval_name(j)) == Some(interval_steps(j)),
{
    lemma_interval_names_distinct();
}

/// The six interval names differ pairwise in length or first character;
/// naming those terms lets the solver tell any two of them apart.
proof fn lemma_interval_names_distinct()
    ensures
        "third"@.len() == 5 && "third"@[0] == 't',
        "fifth"@.len() == 5 && "fifth"@[0] == 'f',
        "seventh"@.len() == 7 && "seventh"@[0] == 's',
        "ninth"@.len() == 5 && "ninth"@[0] == 'n',
        "eleventh"@.len() == 8 && "eleventh"@[0] == 'e',
        "thirteenth"@.len() == 10 && "thirteenth"@[0] == 't',
{
    reveal_strlit("third");
    reveal_strlit("fifth");
    reveal_strlit("seventh");
    reveal_strlit("ninth");
    reveal_strlit("eleventh");
    reveal_strlit("thirteenth");
}

/// Shifting a note by zero semitones returns the very same note name.
pub proof fn lemma_relative_note_identity(s: Seq<char>)
    requires
        note_index_of(s) is Some,
    ensures
        shifted_note(note_index_of(s)->Some_0, 0) == s,
{
    let i = note_index_of(s)->Some_0;
    lemma_note_name_of_index(s);
    lemma_small_mod(i as nat, 12);
}

/// Shifting a note by `k` and by `k + 12` semitones names the same note:
/// the pitch classes repeat every twelve semitones.
pub proof fn lemma_relative_note_periodic(i: int, k: int)
    requires
        0 <= i < 12,
        0 <= k,
    ensures
        shifted_note(i, k) == shifted_note(i, k + 12),
{
    lemma_mod_add_multiples_vanish(i + k, 12);
}

} // verus!
