use vstd::prelude::*;

use crate::TheoryError;
use crate::interval::shifted_note;
use crate::pitch::{lemma_note_name_of_index, note_index, note_index_of, note_name_at};
use vstd::arithmetic::div_mod::{lemma_add_mod_noop_right, lemma_small_mod};

verus! {

/// A single move in a tone pattern: a whole step of two semitones or a
/// half step of one.
#[derive(Clone, Copy, Debug, PartialEq, Eq, Structural)]
pub enum ToneMeasure {
    Tone,
    SemiTone,
}

/// The semitone size of one move.
pub open spec fn step_semitones(t: ToneMeasure) -> int {
    match t {
        ToneMeasure::Tone => 2,
        ToneMeasure::SemiTone => 1,
    }
}

/// The cumulative semitone distance after the first `i` moves of a
/// pattern.
pub open spec fn cum_semitones(p: Seq<ToneMeasure>, i: int) -> int
    decreases i,
{
    if i <= 0 {
        0
    } else {
        cum_semitones(p, i - 1) + step_semitones(p[i - 1])
    }
}

/// The fixed whole/half-step pattern of the major scale: seven moves
/// producing an eight-note scale that ends on the octave of the root.
pub open spec fn major_pattern() -> Seq<ToneMeasure> {
    seq![
        ToneMeasure::Tone,
        ToneMeasure::Tone,
        ToneMeasure::SemiTone,
        ToneMeasure::Tone,
        ToneMeasure::Tone,
        ToneMeasure::Tone,
        ToneMeasure::SemiTone,
    ]
}

/// The cumulative semitone distances are never negative.
pub proof fn lemma_cum_semitones_nonneg(p: Seq<ToneMeasure>, i: int)
    ensures
        cum_semitones(p, i) >= 0,
    decreases i,
{
    if i > 0 {
        lemma_cum_semitones_nonneg(p, i - 1);
    }
}

/// The major-scale pattern as an executable value, for handing to
/// `build_scale`.
pub fn major_harmonic_pattern() -> (r: Vec<ToneMeasure>)
    ensures
        r@ == major_pattern(),
{
    let r: Vec<ToneMeasure> = vec![
        ToneMeasure::Tone,
        ToneMeasure::Tone,
        ToneMeasure::SemiTone,
        ToneMeasure::Tone,
        ToneMeasure::Tone,
        ToneMeasure::Tone,
        ToneMeasure::SemiTone,
    ];
    proof {
        assert(r@ =~= major_pattern());
    }
    r
}

/// Builds the scale that starts at a root note and follows a tone pattern:
/// entry 0 is the root, and every later entry is the root shifted by the
/// cumulative semitone sum of the moves taken so far, wrapped modulo 12.
/// A root name outside the pitch class table is rejected.
pub fn build_scale(note: &str, pattern: &Vec<ToneMeasure>) -> (r: Result<
    Vec<&'static str>,
    TheoryError,
>)
    ensures
        match note_index_of(note@) {
            Some(i) => {
                &&& r is Ok
                &&& r->Ok_0@.len() == pattern@.len() + 1
                &&& forall|j: int|
                    0 <= j <= pattern@.len() ==> (#[trigger] r->Ok_0@[j])@ == shifted_note(
                        i,
                        cum_semitones(pattern@, j),
                    )
                &&& r->Ok_0@[0]@ == note@
            },
            None => r == Err::<Vec<&'static str>, TheoryError>(TheoryError::UnknownNote),
        },
{
    let index = match note_index(note) {
        Some(i) => i,
        None => {
            return Err(TheoryError::UnknownNote);
        },
    };
    let mut scale: Vec<&'static str> = Vec::new();
    scale.push(note_name_at(index));
    proof {
        lemma_small_mod(index as nat, 12);
        lemma_note_name_of_index(note@);
    }
    let mut acc: usize = 0;
    let mut k: usize = 0;
    while k < pattern.len()
        invariant
            note_index_of(note@) == Some(index as int),
            index < 12,
            k <= pattern@.len(),
            acc < 12,
            acc as int == cum_semitones(pattern@, k as int) % 12,
            scale@.len() == k + 1,
            forall|j: int|
                0 <= j <= k ==> (#[trigger] scale@[j])@ == shifted_note(
                    index as int,
                    cum_semitones(pattern@, j),
                ),
        decreases pattern@.len() - k,
    {
        let step: usize = match pattern[k] {
            ToneMeasure::Tone => 2,
            ToneMeasure::SemiTone => 1,
        };
        proof {
            let c = cum_semitones(pattern@, k as int);
            let c1 = cum_semitones(pattern@, k as int + 1);
            assert(c1 == c + step_semitones(pattern@[k as int]));
            lemma_small_mod(step as nat, 12);
            lemma_add_mod_noop_right(step as int, c, 12);
            assert((step + acc) % 12 == c1 % 12);
        }
        acc = (acc + step) % 12;
        proof {
            lemma_add_mod_noop_right(index as int, cum_semitones(pattern@, k as int + 1), 12);
            lemma_cum_semitones_nonneg(pattern@, k as int + 1);
        }
        scale.push(note_name_at((index + acc) % 12));
        k = k + 1;
    }
    Ok(scale)
}

/// The major harmonic scale of a root note: eight entries, following the
/// fixed whole/half-step pattern of the major scale from the root up to
/// its octave.
pub fn get_major_harmonic_scale(note: &str) -> (r: Result<Vec<&'static str>, TheoryError>)
    ensures
        match note_index_of(note@) {
            Some(i) => {
                &&& r is Ok
                &&& r->Ok_0@.len() == 8
                &&& forall|j: int|
                    0 <= j < 8 ==> (#[trigger] r->Ok_0@[j])@ == shifted_note(
                        i,
                        cum_semitones(major_pattern(), j),
                    )
                &&& r->Ok_0@[0]@ == note@
            },
            None => r == Err::<Vec<&'static str>, TheoryError>(TheoryError::UnknownNote),
        },
{
    let pattern = major_harmonic_pattern();
    build_scale(note, &pattern)
}

} // verus!
