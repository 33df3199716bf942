//! Chord identification from spectral data.
//!
//! The library turns frequency-domain magnitudes into a twelve-bin
//! pitch-class (chroma) profile and matches that profile against rotated
//! major and minor triad templates to name the chord being played.
//! All energies are carried as fixed-point integers scaled by [`SCALE`].

pub mod analyze;
pub mod chroma;
pub mod matcher;
pub mod pitch;

use vstd::prelude::*;

verus! {

/// Fixed-point scale: this value stands for an energy of 1.0.
pub const SCALE: u64 = 1_000_000;

/// Smallest analysed frequency, in Hz.
pub const BAND_LOW_HZ: u64 = 70;

/// Largest analysed frequency, in Hz.
pub const BAND_HIGH_HZ: u64 = 1500;

/// Confidence threshold: a chord is reported only when the best template
/// score strictly exceeds this value (0.4 in fixed point).
pub const THRESHOLD: u64 = 400_000;

} // verus!
