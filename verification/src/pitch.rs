//! Mapping from frequency to pitch class.
//!
//! A frequency f (in Hz) belongs to the equal-tempered semitone whose MIDI
//! number is round(69 + 12*log2(f / 440)).  Working in millihertz keeps the
//! mapping exact over the analysis band: the semitone with MIDI number m
//! covers the integer millihertz values from ceil(440000 * 2^((2m - 139)/24))
//! up to (but not including) the same expression for m + 1, and those
//! ceilings are written out below as literal thresholds.  The pitch class is
//! the MIDI number modulo 12 (0 = C, 1 = C#, ..., 11 = B).

use vstd::prelude::*;

verus! {

/// MIDI number (rounded to the nearest semitone) of a frequency given in
/// millihertz, for frequencies inside the analysis band.  Each threshold is
/// ceil(440000 * 2^((2m - 139)/24)), the lower edge of the semitone with
/// MIDI number m, so for every integer input the chain agrees exactly with
/// round(69 + 12*log2(fm / 440000)).
pub open spec fn midi_of_milli(fm: int) -> int {
    if fm < 71327 {
        37
    } else if fm < 75568 {
        38
    } else if fm < 80061 {
        39
    } else if fm < 84822 {
        40
    } else if fm < 89866 {
        41
    } else if fm < 95210 {
        42
    } else if fm < 100871 {
        43
    } else if fm < 106869 {
        44
    } else if fm < 113224 {
        45
    } else if fm < 119956 {
        46
    } else if fm < 127089 {
        47
    } else if fm < 134646 {
        48
    } else if fm < 142653 {
        49
    } else if fm < 151135 {
        50
    } else if fm < 160122 {
        51
    } else if fm < 169644 {
        52
    } else if fm < 179731 {
        53
    } else if fm < 190419 {
        54
    } else if fm < 201741 {
        55
    } else if fm < 213738 {
        56
    } else if fm < 226447 {
        57
    } else if fm < 239912 {
        58
    } else if fm < 254178 {
        59
    } else if fm < 269292 {
        60
    } else if fm < 285305 {
        61
    } else if fm < 302270 {
        62
    } else if fm < 320244 {
        63
    } else if fm < 339287 {
        64
    } else if fm < 359462 {
        65
    } else if fm < 380837 {
        66
    } else if fm < 403482 {
        67
    } else if fm < 427475 {
        68
    } else if fm < 452893 {
        69
    } else if fm < 479824 {
        70
    } else if fm < 508356 {
        71
    } else if fm < 538584 {
        72
    } else if fm < 570610 {
        73
    } else if fm < 604540 {
        74
    } else if fm < 640488 {
        75
    } else if fm < 678573 {
        76
    } else if fm < 718923 {
        77
    } else if fm < 761673 {
        78
    } else if fm < 806964 {
        79
    } else if fm < 854949 {
        80
    } else if fm < 905786 {
        81
    } else if fm < 959647 {
        82
    } else if fm < 1016711 {
        83
    } else if fm < 1077168 {
        84
    } else if fm < 1141219 {
        85
    } else if fm < 1209080 {
        86
    } else if fm < 1280975 {
        87
    } else if fm < 1357146 {
        88
    } else if fm < 1437846 {
        89
    } else {
        90
    }
}

/// Pitch class (0 = C ... 11 = B) of a frequency given in millihertz.
pub open spec fn pitch_class_of_milli(fm: int) -> int {
    midi_of_milli(fm) % 12
}

/// Pitch class of a frequency, supplied in millihertz, inside the analysis
/// band: the MIDI number round(69 + 12*log2(f / 440)) reduced modulo 12.
pub fn freq_to_pitch(freq_milli: u64) -> (pc: usize)
    requires
        crate::BAND_LOW_HZ * 1000 <= freq_milli <= crate::BAND_HIGH_HZ * 1000,
    ensures
        pc == pitch_class_of_milli(freq_milli as int),
        pc < 12,
{
    let m: u64 = if freq_milli < 71327 {
        37
    } else if freq_milli < 75568 {
        38
    } else if freq_milli < 80061 {
        39
    } else if freq_milli < 84822 {
        40
    } else if freq_milli < 89866 {
        41
    } else if freq_milli < 95210 {
        42
    } else if freq_milli < 100871 {
        43
    } else if freq_milli < 106869 {
        44
    } else if freq_milli < 113224 {
        45
    } else if freq_milli < 119956 {
        46
    } else if freq_milli < 127089 {
        47
    } else if freq_milli < 134646 {
        48
    } else if freq_milli < 142653 {
        49
    } else if freq_milli < 151135 {
        50
    } else if freq_milli < 160122 {
        51
    } else if freq_milli < 169644 {
        52
    } else if freq_milli < 179731 {
        53
    } else if freq_milli < 190419 {
        54
    } else if freq_milli < 201741 {
        55
    } else if freq_milli < 213738 {
        56
    } else if freq_milli < 226447 {
        57
    } else if freq_milli < 239912 {
        58
    } else if freq_milli < 254178 {
        59
    } else if freq_milli < 269292 {
        60
    } else if freq_milli < 285305 {
        61
    } else if freq_milli < 302270 {
        62
    } else if freq_milli < 320244 {
        63
    } else if freq_milli < 339287 {
        64
    } else if freq_milli < 359462 {
        65
    } else if freq_milli < 380837 {
        66
    } else if freq_milli < 403482 {
        67
    } else if freq_milli < 427475 {
        68
    } else if freq_milli < 452893 {
        69
    } else if freq_milli < 479824 {
        70
    } else if freq_milli < 508356 {
        71
    } else if freq_milli < 538584 {
        72
    } else if freq_milli < 570610 {
        73
    } else if freq_milli < 604540 {
        74
    } else if freq_milli < 640488 {
        75
    } else if freq_milli < 678573 {
        76
    } else if freq_milli < 718923 {
        77
    } else if freq_milli < 761673 {
        78
    } else if freq_milli < 806964 {
        79
    } else if freq_milli < 854949 {
        80
    } else if freq_milli < 905786 {
        81
    } else if freq_milli < 959647 {
        82
    } else if freq_milli < 1016711 {
        83
    } else if freq_milli < 1077168 {
        84
    } else if freq_milli < 1141219 {
        85
    } else if freq_milli < 1209080 {
        86
    } else if freq_milli < 1280975 {
        87
    } else if freq_milli < 1357146 {
        88
    } else if freq_milli < 1437846 {
        89
    } else {
        90
    };
    assert(m == midi_of_milli(freq_milli as int));
    (m % 12) as usize
}

} // verus!
