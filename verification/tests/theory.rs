use music_facts::TheoryError;
use music_facts::facts::{
    generate_facts, interval_facts, join_with_spaces, mode_facts, scale_and_chord_facts,
};
use music_facts::interval::{
    get_relative_interval, get_relative_note, interval_name_at, semitones_for,
};
use music_facts::pitch::{natural_name_at, note_index, note_name_at};
use music_facts::scale::{
    build_scale, get_major_harmonic_scale, major_harmonic_pattern, ToneMeasure,
};
use music_facts::tables::{
    get_chords_for_major_note, get_greek_mode_quirk, get_greek_mode_scale,
    get_greek_mode_tonal_signature, mode_name_at,
};

const NOTES: [&str; 12] = [
    "A", "A#", "B", "C", "C#", "D", "D#", "E", "F", "F#", "G", "G#",
];

#[test]
fn note_index_finds_every_canonical_name() {
    for (i, name) in NOTES.iter().enumerate() {
        assert_eq!(note_index(name), Some(i));
        assert_eq!(note_name_at(i), *name);
    }
}

#[test]
fn note_index_rejects_unknown_spellings() {
    assert_eq!(note_index("H"), None);
    assert_eq!(note_index("a"), None);
    assert_eq!(note_index("Bb"), None);
    assert_eq!(note_index("AX"), None);
    assert_eq!(note_index(""), None);
}

#[test]
fn relative_note_zero_offset_is_identity() {
    for name in NOTES {
        assert_eq!(get_relative_note(name, 0), Ok(name));
    }
}

#[test]
fn relative_note_is_twelve_periodic() {
    for name in NOTES {
        for k in [0, 1, 4, 7, 11, 13, 24] {
            assert_eq!(get_relative_note(name, k), get_relative_note(name, k + 12));
        }
    }
}

#[test]
fn relative_note_rejects_unknown_note() {
    assert_eq!(get_relative_note("H", 3), Err(TheoryError::UnknownNote));
}

#[test]
fn semitones_for_matches_the_fixed_mapping() {
    assert_eq!(semitones_for("third"), Some(4));
    assert_eq!(semitones_for("fifth"), Some(7));
    assert_eq!(semitones_for("seventh"), Some(10));
    assert_eq!(semitones_for("ninth"), Some(13));
    assert_eq!(semitones_for("eleventh"), Some(16));
    assert_eq!(semitones_for("thirteenth"), Some(19));
    assert_eq!(semitones_for("second"), None);
    assert_eq!(semitones_for(""), None);
}

#[test]
fn resolve_intervals_of_c() {
    assert_eq!(get_relative_interval("C", "third"), Ok("E"));
    assert_eq!(get_relative_interval("C", "fifth"), Ok("G"));
    assert_eq!(get_relative_interval("C", "seventh"), Ok("A#"));
}

#[test]
fn resolve_matches_modular_arithmetic_for_all_pairs() {
    let intervals = [
        ("third", 4),
        ("fifth", 7),
        ("seventh", 10),
        ("ninth", 13),
        ("eleventh", 16),
        ("thirteenth", 19),
    ];
    for (i, note) in NOTES.iter().enumerate() {
        for (name, semitones) in intervals {
            assert_eq!(
                get_relative_interval(note, name),
                Ok(NOTES[(i + semitones) % 12])
            );
        }
    }
}

#[test]
fn resolve_rejects_unknown_keys_interval_first() {
    assert_eq!(
        get_relative_interval("C", "second"),
        Err(TheoryError::UnknownInterval)
    );
    assert_eq!(
        get_relative_interval("H", "third"),
        Err(TheoryError::UnknownNote)
    );
    assert_eq!(
        get_relative_interval("H", "second"),
        Err(TheoryError::UnknownInterval)
    );
}

#[test]
fn major_scale_of_c() {
    assert_eq!(
        get_major_harmonic_scale("C"),
        Ok(vec!["C", "D", "E", "F", "G", "A", "B", "C"])
    );
}

#[test]
fn major_scale_of_a() {
    assert_eq!(
        get_major_harmonic_scale("A"),
        Ok(vec!["A", "B", "C#", "D", "E", "F#", "G#", "A"])
    );
}

#[test]
fn major_scale_starts_and_ends_on_the_root() {
    for name in NOTES {
        let scale = get_major_harmonic_scale(name).unwrap();
        assert_eq!(scale.len(), 8);
        assert_eq!(scale[0], name);
        assert_eq!(scale[7], name);
    }
}

#[test]
fn major_scale_rejects_unknown_root() {
    assert_eq!(
        get_major_harmonic_scale("Z"),
        Err(TheoryError::UnknownNote)
    );
}

#[test]
fn build_scale_follows_any_pattern() {
    let pattern = vec![ToneMeasure::Tone, ToneMeasure::Tone];
    assert_eq!(build_scale("C", &pattern), Ok(vec!["C", "D", "E"]));
    let empty: Vec<ToneMeasure> = vec![];
    assert_eq!(build_scale("G#", &empty), Ok(vec!["G#"]));
    assert_eq!(
        build_scale("Q", &pattern),
        Err(TheoryError::UnknownNote)
    );
}

#[test]
fn build_scale_with_major_pattern_matches_major_scale() {
    let pattern = major_harmonic_pattern();
    for name in NOTES {
        assert_eq!(build_scale(name, &pattern), get_major_harmonic_scale(name));
    }
}

#[test]
fn chords_in_c_major() {
    assert_eq!(
        get_chords_for_major_note("C"),
        Ok(vec!["C", "Dm", "Em", "F", "G", "Am", "B/5b"])
    );
}

#[test]
fn chords_defined_for_every_natural_key_only() {
    for i in 0..7 {
        let key = natural_name_at(i);
        let chords = get_chords_for_major_note(key).unwrap();
        assert_eq!(chords.len(), 7);
        assert_eq!(chords[0], key);
    }
    assert_eq!(
        get_chords_for_major_note("A#"),
        Err(TheoryError::UnknownNote)
    );
    assert_eq!(
        get_chords_for_major_note("H"),
        Err(TheoryError::UnknownNote)
    );
}

#[test]
fn degree_patterns_have_seven_entries_and_start_at_the_tonic() {
    for m in 0..7 {
        let mode = mode_name_at(m);
        let degrees = get_greek_mode_scale(mode).unwrap();
        assert_eq!(degrees.len(), 7);
        assert_eq!(degrees[0], "T");
    }
}

#[test]
fn mode_tables_hold_the_fixed_values() {
    assert_eq!(
        get_greek_mode_scale("dorian"),
        Ok(vec!["T", "2", "3b", "4", "5", "6", "7b"])
    );
    assert_eq!(
        get_greek_mode_scale("locrian"),
        Ok(vec!["T", "2b", "3b", "4", "5b", "6b", "7b"])
    );
    assert_eq!(get_greek_mode_quirk("ionian"), Ok("happy, energetic, popular"));
    assert_eq!(
        get_greek_mode_quirk("aeolian"),
        Ok("sad, introspective, reflective, hope")
    );
    assert_eq!(get_greek_mode_tonal_signature("lidian"), Ok("augmented 4th"));
    assert_eq!(
        get_greek_mode_tonal_signature("locrian"),
        Ok("minor 2nd & diminished 5th")
    );
}

#[test]
fn mode_lookups_reject_unknown_names() {
    assert_eq!(get_greek_mode_scale("melodic"), Err(TheoryError::UnknownMode));
    assert_eq!(get_greek_mode_quirk("IONIAN"), Err(TheoryError::UnknownMode));
    assert_eq!(
        get_greek_mode_tonal_signature(""),
        Err(TheoryError::UnknownMode)
    );
}

#[test]
fn join_with_spaces_separates_parts() {
    let empty: Vec<&str> = vec![];
    assert_eq!(join_with_spaces(&empty), "");
    assert_eq!(join_with_spaces(&vec!["C"]), "C");
    assert_eq!(join_with_spaces(&vec!["C", "D", "E"]), "C D E");
}

#[test]
fn fact_count_is_the_sum_of_the_four_groups() {
    assert_eq!(interval_facts().len(), 12 * 6);
    assert_eq!(scale_and_chord_facts().len(), 12 + 7);
    assert_eq!(mode_facts().len(), 7 * 3);
    assert_eq!(generate_facts().len(), 112);
}

#[test]
fn fact_generation_is_idempotent() {
    assert_eq!(generate_facts(), generate_facts());
}

#[test]
fn facts_hold_the_expected_pairs_at_the_group_boundaries() {
    let facts = generate_facts();
    assert_eq!(facts[0], ("third of A".to_string(), "C#".to_string()));
    assert_eq!(facts[71], ("thirteenth of G#".to_string(), "D#".to_string()));
    assert_eq!(
        facts[72],
        (
            "Major harmonic scale of A".to_string(),
            "A B C# D E F# G# A".to_string()
        )
    );
    assert_eq!(
        facts[84],
        (
            "Chords in A major".to_string(),
            "A Bm C#m D E F#m G#/5b".to_string()
        )
    );
    assert_eq!(
        facts[91],
        (
            "Scale for greek mode: ionian".to_string(),
            "T 2 3 4 5 6 7".to_string()
        )
    );
    assert_eq!(
        facts[92],
        (
            "Quirk for greek mode: ionian".to_string(),
            "happy, energetic, popular".to_string()
        )
    );
    assert_eq!(
        facts[111],
        (
            "Tonal signature for greek mode: locrian".to_string(),
            "minor 2nd & diminished 5th".to_string()
        )
    );
}

#[test]
fn interval_and_mode_catalogues_keep_their_order() {
    let interval_names = [
        "third",
        "fifth",
        "seventh",
        "ninth",
        "eleventh",
        "thirteenth",
    ];
    for (j, name) in interval_names.iter().enumerate() {
        assert_eq!(interval_name_at(j), *name);
    }
    let mode_names = [
        "ionian",
        "dorian",
        "phrygian",
        "lidian",
        "mixolydian",
        "aeolian",
        "locrian",
    ];
    for (m, name) in mode_names.iter().enumerate() {
        assert_eq!(mode_name_at(m), *name);
    }
}
