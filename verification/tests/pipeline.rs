use chordid::SCALE;
use chordid::analyze::analyze_spectrum;
use chordid::chroma::{chroma_from_spectrum, top_pitch_classes};
use chordid::matcher::{ChordResult, Quality, note_name};
use rustfft::FftPlanner;
use rustfft::num_complex::Complex;

#[test]
fn empty_input_is_unknown() {
    // An empty sample buffer has no spectral bins: Unknown, whatever the
    // sample rate.
    let mags: Vec<u64> = Vec::new();
    assert_eq!(analyze_spectrum(&mags, 44_100, 0), ChordResult::Unknown);
    assert_eq!(analyze_spectrum(&mags, 8_000, 0), ChordResult::Unknown);
    assert_eq!(analyze_spectrum(&mags, 1, 0), ChordResult::Unknown);
}

#[test]
fn out_of_band_energy_is_ignored() {
    // At 44100 Hz with 1024 samples, bin 1 sits at 43 Hz (sub-bass) and
    // bin 40 at 1723 Hz (above the band): energy there must not produce a
    // chord.
    let mut mags = vec![0u64; 512];
    mags[1] = 1_000_000;
    mags[40] = 1_000_000;
    assert_eq!(analyze_spectrum(&mags, 44_100, 1024), ChordResult::Unknown);
}

#[test]
fn chroma_accumulates_and_normalizes() {
    // Bin 6 of a 1024-point spectrum at 44100 Hz is 258.4 Hz (a C), bin 15
    // is 646.0 Hz (an E).  After normalization the C entry is exactly
    // SCALE and the E entry is one third of it.
    let mut mags = vec![0u64; 512];
    mags[6] = 3000;
    mags[15] = 1000;
    let chroma = chroma_from_spectrum(&mags, 44_100, 1024);
    let mut expected = vec![0u64; 12];
    expected[0] = SCALE;
    expected[4] = 333_333;
    assert_eq!(chroma, expected);
}

#[test]
fn silent_spectrum_stays_all_zero() {
    let mags = vec![0u64; 512];
    let chroma = chroma_from_spectrum(&mags, 44_100, 1024);
    assert_eq!(chroma, vec![0u64; 12]);
    assert_eq!(analyze_spectrum(&mags, 44_100, 1024), ChordResult::Unknown);
}

#[test]
fn analysis_is_deterministic() {
    let mut mags = vec![0u64; 512];
    mags[6] = 2500;
    mags[8] = 900;
    mags[15] = 1300;
    let first = analyze_spectrum(&mags, 44_100, 1024);
    let second = analyze_spectrum(&mags, 44_100, 1024);
    assert_eq!(first, second);
}

#[test]
fn top_classes_rank_by_energy() {
    let mut chroma = vec![0u64; 12];
    chroma[0] = 10;
    chroma[4] = 8;
    chroma[7] = 9;
    assert_eq!(top_pitch_classes(&chroma), vec![0, 7, 4]);
}

#[test]
fn top_classes_break_ties_downward() {
    // All energies equal: higher pitch classes rank first.
    let chroma = vec![5u64; 12];
    assert_eq!(top_pitch_classes(&chroma), vec![11, 10, 9]);
}

fn spectrum_magnitudes(samples: &[f32], n: usize) -> Vec<u64> {
    let mut input: Vec<Complex<f32>> = samples
        .iter()
        .enumerate()
        .map(|(i, s)| {
            let w = 0.5 - 0.5 * (2.0 * std::f32::consts::PI * i as f32 / n as f32).cos();
            Complex { re: s * w, im: 0.0 }
        })
        .collect();
    let mut planner = FftPlanner::<f32>::new();
    let fft = planner.plan_fft_forward(n);
    fft.process(&mut input);
    input.iter().take(n / 2).map(|c| (c.norm() * 1000.0) as u64).collect()
}

#[test]
fn c_major_triad_is_recognized_end_to_end() {
    // Three sine waves at the C4 major chord tones, 44100 Hz, 8192
    // samples: the chroma must peak at C, E and G and the matcher must
    // report C major.
    let sr = 44_100u32;
    let n = 8192usize;
    let samples: Vec<f32> = (0..n)
        .map(|i| {
            let t = i as f32 / sr as f32;
            let two_pi = 2.0 * std::f32::consts::PI;
            ((two_pi * 261.63 * t).sin() + (two_pi * 329.63 * t).sin()
                + (two_pi * 392.00 * t).sin()) / 3.0
        })
        .collect();
    let mags = spectrum_magnitudes(&samples, n);
    assert_eq!(mags.len(), n / 2);

    let chroma = chroma_from_spectrum(&mags, sr as u64, n as u64);
    let mut top = top_pitch_classes(&chroma);
    top.sort();
    assert_eq!(top, vec![0, 4, 7]);

    let r = analyze_spectrum(&mags, sr as u64, n as u64);
    assert_eq!(r, ChordResult::Chord { root: 0, quality: Quality::Major });
    assert_eq!(r.label(), "C major");
    assert_eq!(note_name(0), "C");
}

#[test]
fn a_minor_triad_is_recognized_end_to_end() {
    // A3, C4 and E4 form an A minor triad.
    let sr = 44_100u32;
    let n = 8192usize;
    let samples: Vec<f32> = (0..n)
        .map(|i| {
            let t = i as f32 / sr as f32;
            let two_pi = 2.0 * std::f32::consts::PI;
            ((two_pi * 220.00 * t).sin() + (two_pi * 261.63 * t).sin()
                + (two_pi * 329.63 * t).sin()) / 3.0
        })
        .collect();
    let mags = spectrum_magnitudes(&samples, n);
    let r = analyze_spectrum(&mags, sr as u64, n as u64);
    assert_eq!(r.label(), "A minor");
}

#[test]
fn pure_subsonic_tone_is_unknown() {
    // A sub-bass tone centred on bin 6 (32.3 Hz): its windowed energy
    // spreads only to neighbouring bins, all below the analysis band.
    let sr = 44_100u32;
    let n = 8192usize;
    let freq = 6.0 * sr as f32 / n as f32;
    let samples: Vec<f32> = (0..n)
        .map(|i| {
            let t = i as f32 / sr as f32;
            (2.0 * std::f32::consts::PI * freq * t).sin()
        })
        .collect();
    let mags = spectrum_magnitudes(&samples, n);
    let r = analyze_spectrum(&mags, sr as u64, n as u64);
    assert_eq!(r, ChordResult::Unknown);
}
