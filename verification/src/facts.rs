use vstd::prelude::*;

use crate::interval::{
    get_relative_interval, interval_name, interval_name_at, interval_steps,
    lemma_interval_semitones_of_name, shifted_note,
};
use crate::pitch::{
    lemma_note_index_of_name, natural_name, natural_name_at, note_name, note_name_at,
};
use crate::scale::{cum_semitones, get_major_harmonic_scale, major_pattern};
use crate::tables::{
    chords_of_major, get_chords_for_major_note, get_greek_mode_quirk, get_greek_mode_scale,
    get_greek_mode_tonal_signature, lemma_chords_defined, lemma_mode_tables_defined,
    mode_degree_pattern, mode_name, mode_name_at, mode_quirk, mode_tonal_signature,
};
use vstd::arithmetic::div_mod::lemma_fundamental_div_mod_converse;
use vstd::string::StringExecFns;

verus! {

/// The space-joined rendering of a sequence of parts: the parts in order,
/// separated by single spaces.
pub open spec fn space_join(parts: Seq<Seq<char>>) -> Seq<char>
    decreases parts.len(),
{
    if parts.len() == 0 {
        Seq::empty()
    } else if parts.len() == 1 {
        parts[0]
    } else {
        space_join(parts.drop_last()) + " "@ + parts.last()
    }
}

/// The interval fact for note index `i` and interval index `j`: the
/// prompt names the interval of the note, the answer is the resolved
/// note name.
pub open spec fn interval_fact(i: int, j: int) -> (Seq<char>, Seq<char>) {
    (interval_name(j) + " of "@ + note_name(i), shifted_note(i, interval_steps(j)))
}

/// The scale fact for note index `i`: the prompt names the major
/// harmonic scale of the note, the answer is the space-joined scale.
pub open spec fn scale_fact(i: int) -> (Seq<char>, Seq<char>) {
    (
        "Major harmonic scale of "@ + note_name(i),
        space_join(Seq::new(8, |j: int| shifted_note(i, cum_semitones(major_pattern(), j)))),
    )
}

/// The chord fact for natural note index `i`: the prompt names the major
/// key, the answer is the space-joined list of its diatonic chords.
pub open spec fn chord_fact(i: int) -> (Seq<char>, Seq<char>) {
    (
        "Chords in "@ + natural_name(i) + " major"@,
        space_join(chords_of_major(natural_name(i))->Some_0),
    )
}

/// The mode fact for mode index `m` and kind `t`: the degree pattern for
/// `t == 0`, the mood quirk for `t == 1`, the tonal signature otherwise.
pub open spec fn mode_fact(m: int, t: int) -> (Seq<char>, Seq<char>) {
    if t == 0 {
        (
            "Scale for greek mode: "@ + mode_name(m),
            space_join(mode_degree_pattern(mode_name(m))->Some_0),
        )
    } else if t == 1 {
        ("Quirk for greek mode: "@ + mode_name(m), mode_quirk(mode_name(m))->Some_0)
    } else {
        (
            "Tonal signature for greek mode: "@ + mode_name(m),
            mode_tonal_signature(mode_name(m))->Some_0,
        )
    }
}

/// The 72 interval facts, ordered by note and then by interval.
pub open spec fn interval_deck_facts() -> Seq<(Seq<char>, Seq<char>)> {
    Seq::new(72, |k: int| interval_fact(k / 6, k % 6))
}

/// The 12 major-scale facts, in chromatic note order.
pub open spec fn scale_facts_seq() -> Seq<(Seq<char>, Seq<char>)> {
    Seq::new(12, |i: int| scale_fact(i))
}

/// The 7 chord facts, in alphabetical order of the natural keys.
pub open spec fn chord_facts_seq() -> Seq<(Seq<char>, Seq<char>)> {
    Seq::new(7, |i: int| chord_fact(i))
}

/// The scale facts followed by the chord facts: the contents of the
/// second deck.
pub open spec fn scale_deck_facts() -> Seq<(Seq<char>, Seq<char>)> {
    scale_facts_seq() + chord_facts_seq()
}

/// The 21 mode facts: for each mode in catalogue order, its degree
/// pattern, its quirk, and its tonal signature.
pub open spec fn mode_deck_facts() -> Seq<(Seq<char>, Seq<char>)> {
    Seq::new(21, |k: int| mode_fact(k / 3, k % 3))
}

/// Every fact the generator emits, in emission order: interval facts,
/// then scale and chord facts, then mode facts.
pub open spec fn all_facts() -> Seq<(Seq<char>, Seq<char>)> {
    interval_deck_facts() + scale_deck_facts() + mode_deck_facts()
}

/// Joins string slices with single spaces, producing the answer text of
/// a scale or chord fact.
pub fn join_with_spaces(parts: &Vec<&str>) -> (r: String)
    ensures
        r@ == space_join(parts.deep_view()),
{
    let mut out = String::new();
    let mut k: usize = 0;
    while k < parts.len()
        invariant
            k <= parts@.len(),
            out@ == space_join(parts.deep_view().take(k as int)),
        decreases parts@.len() - k,
    {
        let ghost dv = parts.deep_view();
        if k > 0 {
            out.append(" ");
        }
        out.append(parts[k]);
        proof {
            assert(dv.take(k as int + 1).drop_last() =~= dv.take(k as int));
            assert(dv.take(k as int + 1).last() == dv[k as int]);
            if k == 0 {
                assert(out@ =~= dv[0]);
            }
        }
        k = k + 1;
    }
    proof {
        assert(parts.deep_view().take(parts@.len() as int) =~= parts.deep_view());
    }
    out
}

/// Emits the 72 interval facts: for every note and every named interval,
/// the prompt asks for the interval of the note and the answer resolves
/// it through the interval resolver.
pub fn interval_facts() -> (r: Vec<(String, String)>)
    ensures
        r.deep_view() == interval_deck_facts(),
        r@.len() == 72,
{
    let mut facts: Vec<(String, String)> = Vec::new();
    let mut cnt: usize = 0;
    let mut i: usize = 0;
    proof {
        assert(facts.deep_view() =~= interval_deck_facts().take(0));
    }
    while i < 12
        invariant
            i <= 12,
            cnt == i * 6,
            facts@.len() == cnt,
            facts.deep_view() == interval_deck_facts().take(cnt as int),
        decreases 12 - i,
    {
        let mut j: usize = 0;
        while j < 6
            invariant
                i < 12,
                j <= 6,
                cnt == i * 6 + j,
                facts@.len() == cnt,
                facts.deep_view() == interval_deck_facts().take(cnt as int),
            decreases 6 - j,
        {
            let note = note_name_at(i);
            let interval = interval_name_at(j);
            proof {
                lemma_note_index_of_name(i as int);
                lemma_interval_semitones_of_name(j as int);
            }
            let answer: &'static str = match get_relative_interval(note, interval) {
                Ok(a) => a,
                Err(_) => "",
            };
            let prompt = String::from_str(interval).concat(" of ").concat(note);
            let ghost dv_old = facts.deep_view();
            facts.push((prompt, String::from_str(answer)));
            proof {
                lemma_fundamental_div_mod_converse(cnt as int, 6, i as int, j as int);
                assert(facts.deep_view() =~= dv_old.push(interval_fact(i as int, j as int)));
                assert(interval_deck_facts().take(cnt as int + 1) =~= dv_old.push(
                    interval_deck_facts()[cnt as int],
                ));
            }
            cnt = cnt + 1;
            j = j + 1;
        }
        i = i + 1;
    }
    proof {
        assert(interval_deck_facts().take(72) =~= interval_deck_facts());
    }
    facts
}

/// Emits the 19 facts of the second deck: the major harmonic scale of
/// every note, then the diatonic chords of every natural major key, each
/// answer space-joined.
pub fn scale_and_chord_facts() -> (r: Vec<(String, String)>)
    ensures
        r.deep_view() == scale_deck_facts(),
        r@.len() == 19,
{
    let mut facts: Vec<(String, String)> = Vec::new();
    let mut i: usize = 0;
    proof {
        assert(facts.deep_view() =~= scale_facts_seq().take(0));
    }
    while i < 12
        invariant
            i <= 12,
            facts@.len() == i,
            facts.deep_view() == scale_facts_seq().take(i as int),
        decreases 12 - i,
    {
        let note = note_name_at(i);
        proof {
            lemma_note_index_of_name(i as int);
        }
        let scale_notes: Vec<&'static str> = match get_major_harmonic_scale(note) {
            Ok(v) => v,
            Err(_) => Vec::new(),
        };
        proof {
            assert(scale_notes.deep_view() =~= Seq::new(
                8,
                |j: int| shifted_note(i as int, cum_semitones(major_pattern(), j)),
            ));
        }
        let answer = join_with_spaces(&scale_notes);
        let prompt = String::from_str("Major harmonic scale of ").concat(note);
        let ghost dv_old = facts.deep_view();
        facts.push((prompt, answer));
        proof {
            assert(facts.deep_view() =~= dv_old.push(scale_fact(i as int)));
            assert(scale_facts_seq().take(i as int + 1) =~= dv_old.push(
                scale_facts_seq()[i as int],
            ));
        }
        i = i + 1;
    }
    proof {
        assert(scale_facts_seq().take(12) =~= scale_facts_seq());
    }
    let mut n: usize = 0;
    while n < 7
        invariant
            n <= 7,
            facts@.len() == 12 + n,
            facts.deep_view() == scale_facts_seq() + chord_facts_seq().take(n as int),
        decreases 7 - n,
    {
        let key = natural_name_at(n);
        proof {
            lemma_chords_defined(n as int);
        }
        let chords: Vec<&'static str> = match get_chords_for_major_note(key) {
            Ok(v) => v,
            Err(_) => Vec::new(),
        };
        let answer = join_with_spaces(&chords);
        let prompt = String::from_str("Chords in ").concat(key).concat(" major");
        let ghost dv_old = facts.deep_view();
        facts.push((prompt, answer));
        proof {
            assert(facts.deep_view() =~= dv_old.push(chord_fact(n as int)));
            assert(scale_facts_seq() + chord_facts_seq().take(n as int + 1) =~= dv_old.push(
                chord_facts_seq()[n as int],
            ));
        }
        n = n + 1;
    }
    proof {
        assert(chord_facts_seq().take(7) =~= chord_facts_seq());
        assert(scale_facts_seq() + chord_facts_seq() =~= scale_deck_facts());
    }
    facts
}

/// Emits the 21 mode facts: for each Greek mode in catalogue order, its
/// degree-alteration pattern (space-joined), its mood quirk, and its
/// tonal-signature label.
pub fn mode_facts() -> (r: Vec<(String, String)>)
    ensures
        r.deep_view() == mode_deck_facts(),
        r@.len() == 21,
{
    let mut facts: Vec<(String, String)> = Vec::new();
    let mut cnt: usize = 0;
    let mut m: usize = 0;
    proof {
        assert(facts.deep_view() =~= mode_deck_facts().take(0));
    }
    while m < 7
        invariant
            m <= 7,
            cnt == m * 3,
            facts@.len() == cnt,
            facts.deep_view() == mode_deck_facts().take(cnt as int),
        decreases 7 - m,
    {
        let mode = mode_name_at(m);
        proof {
            lemma_mode_tables_defined(m as int);
        }
        let degrees: Vec<&'static str> = match get_greek_mode_scale(mode) {
            Ok(v) => v,
            Err(_) => Vec::new(),
        };
        let degree_answer = join_with_spaces(&degrees);
        let degree_prompt = String::from_str("Scale for greek mode: ").concat(mode);
        let ghost dv0 = facts.deep_view();
        facts.push((degree_prompt, degree_answer));
        proof {
            lemma_fundamental_div_mod_converse(cnt as int, 3, m as int, 0);
            assert(facts.deep_view() =~= dv0.push(mode_fact(m as int, 0)));
            assert(mode_deck_facts().take(cnt as int + 1) =~= dv0.push(
                mode_deck_facts()[cnt as int],
            ));
        }
        let quirk: &'static str = match get_greek_mode_quirk(mode) {
            Ok(q) => q,
            Err(_) => "",
        };
        let quirk_prompt = String::from_str("Quirk for greek mode: ").concat(mode);
        let ghost dv1 = facts.deep_view();
        facts.push((quirk_prompt, String::from_str(quirk)));
        proof {
            lemma_fundamental_div_mod_converse(cnt as int + 1, 3, m as int, 1);
            assert(facts.deep_view() =~= dv1.push(mode_fact(m as int, 1)));
            assert(mode_deck_facts().take(cnt as int + 2) =~= dv1.push(
                mode_deck_facts()[cnt as int + 1],
            ));
        }
        let signature: &'static str = match get_greek_mode_tonal_signature(mode) {
            Ok(t) => t,
            Err(_) => "",
        };
        let signature_prompt = String::from_str("Tonal signature for greek mode: ").concat(mode);
        let ghost dv2 = facts.deep_view();
        facts.push((signature_prompt, String::from_str(signature)));
        proof {
            lemma_fundamental_div_mod_converse(cnt as int + 2, 3, m as int, 2);
            assert(facts.deep_view() =~= dv2.push(mode_fact(m as int, 2)));
            assert(mode_deck_facts().take(cnt as int + 3) =~= dv2.push(
                mode_deck_facts()[cnt as int + 2],
            ));
        }
        cnt = cnt + 3;
        m = m + 1;
    }
    proof {
        assert(mode_deck_facts().take(21) =~= mode_deck_facts());
    }
    facts
}

/// Emits every fact in order: the 72 interval facts, the 19 scale and
/// chord facts, and the 21 mode facts — 112 prompt/answer pairs in all.
pub fn generate_facts() -> (r: Vec<(String, String)>)
    ensures
        r.deep_view() == all_facts(),
        r@.len() == 112,
{
    let mut all = interval_facts();
    let mut sc = scale_and_chord_facts();
    let mut mo = mode_facts();
    all.append(&mut sc);
    proof {
        assert(all.deep_view() =~= interval_deck_facts() + scale_deck_facts());
    }
    all.append(&mut mo);
    proof {
        assert(all.deep_view() =~= all_facts());
    }
    all
}

/// The generator emits exactly `12*6 + 12 + 7 + 7*3` fact pairs: one per
/// note/interval pair, one per major scale, one per natural key's chord
/// set, and three per Greek mode.
pub proof fn lemma_fact_count()
    ensures
        all_facts().len() == 12 * 6 + 12 + 7 + 7 * 3,
{
}

/// Emitting the facts is idempotent: any two sequences that satisfy the
/// generator's contract are identical, because the output is a function
/// of the fixed tables alone, with no hidden state.
pub proof fn lemma_facts_deterministic(
    a: Seq<(Seq<char>, Seq<char>)>,
    b: Seq<(Seq<char>, Seq<char>)>,
)
    requires
        a == all_facts(),
        b == all_facts(),
    ensures
        a == b,
{
}

} // verus!
