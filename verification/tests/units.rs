use chordid::SCALE;
use chordid::matcher::{ChordResult, Quality, base_template, dot, match_chord, note_name,
    roll_template};
use chordid::pitch::freq_to_pitch;

#[test]
fn pitch_mapping_concert_a() {
    // 440 Hz is A (pitch class 9).
    assert_eq!(freq_to_pitch(440_000), 9);
}

#[test]
fn pitch_mapping_middle_c() {
    // 261.63 Hz is C (pitch class 0).
    assert_eq!(freq_to_pitch(261_630), 0);
}

#[test]
fn pitch_mapping_band_edges() {
    // 70 Hz rounds to MIDI 37, a C#; 1500 Hz rounds to MIDI 90, an F#.
    assert_eq!(freq_to_pitch(70_000), 1);
    assert_eq!(freq_to_pitch(1_500_000), 6);
}

#[test]
fn pitch_mapping_semitone_boundary() {
    // The lower edge of A4 lies between 427.474 Hz and 427.475 Hz: just
    // below it the nearest semitone is G# (8), just above it A (9).
    assert_eq!(freq_to_pitch(427_474), 8);
    assert_eq!(freq_to_pitch(427_475), 9);
}

#[test]
fn major_template_weights() {
    let t = base_template(Quality::Major);
    assert_eq!(t, vec![1, 0, 0, 0, 1, 0, 0, 1, 0, 0, 0, 0]);
}

#[test]
fn minor_template_weights() {
    let t = base_template(Quality::Minor);
    assert_eq!(t, vec![1, 0, 0, 1, 0, 0, 0, 1, 0, 0, 0, 0]);
}

#[test]
fn roll_template_shifts_cyclically() {
    let major = base_template(Quality::Major);
    let rolled = roll_template(&major, 2);
    assert_eq!(rolled, vec![0, 0, 1, 0, 0, 0, 1, 0, 0, 1, 0, 0]);
}

#[test]
fn roll_template_wraps_around() {
    let minor = base_template(Quality::Minor);
    let rolled = roll_template(&minor, 9);
    // Ones at (0+9)%12 = 9, (3+9)%12 = 0, (7+9)%12 = 4.
    assert_eq!(rolled, vec![1, 0, 0, 0, 1, 0, 0, 0, 0, 1, 0, 0]);
}

#[test]
fn dot_sums_selected_entries() {
    let chroma = vec![5, 0, 0, 0, 7, 0, 0, 11, 0, 0, 0, 2];
    let major = base_template(Quality::Major);
    assert_eq!(dot(&chroma, &major), 23);
}

#[test]
fn note_names_are_sharps_only() {
    let names: Vec<&str> = (0..12).map(note_name).collect();
    assert_eq!(names, vec!["C", "C#", "D", "D#", "E", "F", "F#", "G", "G#", "A", "A#", "B"]);
}

#[test]
fn labels_spell_root_and_quality() {
    assert_eq!(ChordResult::Unknown.label(), "Unknown");
    let a_minor = ChordResult::Chord { root: 9, quality: Quality::Minor };
    assert_eq!(a_minor.label(), "A minor");
    let fs_major = ChordResult::Chord { root: 6, quality: Quality::Major };
    assert_eq!(fs_major.label(), "F# major");
}

#[test]
fn threshold_boundary_exact_score_is_unknown() {
    // Best score exactly at the threshold: no chord is reported.
    let mut chroma = vec![0u64; 12];
    chroma[0] = 400_000;
    assert_eq!(match_chord(&chroma), ChordResult::Unknown);
}

#[test]
fn threshold_boundary_just_above_is_labelled() {
    let mut chroma = vec![0u64; 12];
    chroma[0] = 400_001;
    let r = match_chord(&chroma);
    assert_eq!(r, ChordResult::Chord { root: 0, quality: Quality::Major });
    assert_eq!(r.label(), "C major");
}

#[test]
fn major_wins_tie_against_minor() {
    // Major and minor at root 0 both score 2.5 * SCALE; major is
    // evaluated first and keeps the lead.
    let mut chroma = vec![0u64; 12];
    chroma[0] = SCALE;
    chroma[3] = SCALE / 2;
    chroma[4] = SCALE / 2;
    chroma[7] = SCALE;
    let r = match_chord(&chroma);
    assert_eq!(r, ChordResult::Chord { root: 0, quality: Quality::Major });
}

#[test]
fn rotated_major_template_selects_its_root() {
    // A chroma profile equal to the major template rotated to root 2 must
    // come back as D major.
    let mut chroma = vec![0u64; 12];
    chroma[2] = SCALE;
    chroma[6] = SCALE;
    chroma[9] = SCALE;
    let r = match_chord(&chroma);
    assert_eq!(r, ChordResult::Chord { root: 2, quality: Quality::Major });
    assert_eq!(r.label(), "D major");
}

#[test]
fn every_rotated_template_selects_its_root_and_quality() {
    for root in 0..12usize {
        for minor in [false, true] {
            let third = if minor { 3 } else { 4 };
            let mut chroma = vec![0u64; 12];
            chroma[root] = SCALE;
            chroma[(root + third) % 12] = SCALE;
            chroma[(root + 7) % 12] = SCALE;
            let quality = if minor { Quality::Minor } else { Quality::Major };
            assert_eq!(match_chord(&chroma), ChordResult::Chord { root, quality });
        }
    }
}
