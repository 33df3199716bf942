//! Pitch-class energy aggregation.
//!
//! The magnitudes of the spectral bins below the Nyquist limit are folded
//! into twelve pitch-class bins: every bin whose frequency lies inside the
//! analysis band adds its magnitude to the bin of its pitch class, and the
//! result is scaled so that the largest entry becomes exactly `SCALE`.

use vstd::prelude::*;

verus! {

use crate::BAND_HIGH_HZ;
use crate::BAND_LOW_HZ;
use crate::SCALE;
use crate::pitch::freq_to_pitch;
use crate::pitch::pitch_class_of_milli;
use vstd::arithmetic::div_mod::lemma_div_is_ordered;
use vstd::arithmetic::div_mod::lemma_div_multiples_vanish;

/// Whether spectral bin k of an n-point transform at sample rate sr lies in
/// the analysis band, that is BAND_LOW_HZ <= k*sr/n <= BAND_HIGH_HZ, stated
/// without division.
pub open spec fn in_band(k: int, sr: int, n: int) -> bool {
    BAND_LOW_HZ * n <= k * sr && k * sr <= BAND_HIGH_HZ * n
}

/// Frequency of spectral bin k in millihertz, rounded down.
pub open spec fn bin_freq_milli(k: int, sr: int, n: int) -> int {
    k * sr * 1000 / n
}

/// Raw chroma profile accumulated over the first `bins` spectral bins: each
/// in-band bin adds its magnitude to the entry of its pitch class.
pub open spec fn raw_chroma(mags: Seq<u64>, sr: int, n: int, bins: int) -> Seq<int>
    decreases bins,
{
    if bins <= 0 {
        Seq::new(12, |i: int| 0)
    } else {
        let prev = raw_chroma(mags, sr, n, bins - 1);
        if in_band(bins - 1, sr, n) {
            let pc = pitch_class_of_milli(bin_freq_milli(bins - 1, sr, n));
            prev.update(pc, prev[pc] + mags[bins - 1])
        } else {
            prev
        }
    }
}

/// Largest entry of a chroma profile (0 for an empty one).
pub open spec fn seq_max(c: Seq<int>) -> int
    decreases c.len(),
{
    if c.len() == 0 {
        0
    } else {
        let m = seq_max(c.drop_last());
        if c.last() > m {
            c.last()
        } else {
            m
        }
    }
}

/// Normalized profile: when any energy was accumulated, every entry is
/// rescaled so that the largest becomes exactly SCALE; an all-zero profile
/// stays all-zero.
pub open spec fn normalize_spec(c: Seq<int>) -> Seq<int> {
    let m = seq_max(c);
    if m > 0 {
        Seq::new(c.len(), |i: int| c[i] * SCALE / m)
    } else {
        c
    }
}

/// The chroma profile of an n-point spectrum: raw accumulation over the
/// bins below the Nyquist limit, then normalization.
pub open spec fn chroma_spec(mags: Seq<u64>, sr: int, n: int) -> Seq<int> {
    normalize_spec(raw_chroma(mags, sr, n, n / 2))
}

/// The raw profile has twelve entries, each a sum of magnitudes: it is
/// non-negative and bounded by the number of bins times the largest
/// magnitude allowed.
pub proof fn lemma_raw_chroma_bounds(mags: Seq<u64>, sr: int, n: int, bins: int)
    requires
        0 <= bins <= mags.len(),
        forall|k: int| 0 <= k < mags.len() ==> mags[k] < 0x1_0000_0000,
    ensures
        raw_chroma(mags, sr, n, bins).len() == 12,
        forall|i: int| 0 <= i < 12 ==>
            0 <= #[trigger] raw_chroma(mags, sr, n, bins)[i] <= bins * 0xFFFF_FFFF,
    decreases bins,
{
    if bins > 0 {
        lemma_raw_chroma_bounds(mags, sr, n, bins - 1);
    }
}

/// Every entry is bounded by the maximum, and some entry attains it when
/// the profile is non-empty.
pub proof fn lemma_seq_max(c: Seq<int>)
    ensures
        forall|i: int| 0 <= i < c.len() ==> c[i] <= seq_max(c),
        seq_max(c) >= 0,
        seq_max(c) > 0 ==> exists|i: int| 0 <= i < c.len() && c[i] == seq_max(c),
    decreases c.len(),
{
    if c.len() > 0 {
        lemma_seq_max(c.drop_last());
        assert(forall|i: int| 0 <= i < c.len() - 1 ==> c[i] == c.drop_last()[i]);
        if c.last() > seq_max(c.drop_last()) {
            assert(c[c.len() - 1] == seq_max(c));
        } else {
            if seq_max(c) > 0 {
                let i = choose|i: int| 0 <= i < c.len() - 1 && c.drop_last()[i] == seq_max(
                    c.drop_last(),
                );
                assert(c[i] == seq_max(c));
            }
        }
    }
}

/// Build the chroma profile of a spectrum.  `mags[k]` is the fixed-point
/// magnitude of bin k of an n-point transform at sample rate sr, for the
/// bins below the Nyquist limit.
pub fn chroma_from_spectrum(mags: &Vec<u64>, sr: u64, n: u64) -> (chroma: Vec<u64>)
    requires
        mags@.len() == n as int / 2,
        1 <= sr < 0x1_0000_0000,
        n < 0x1_0000_0000,
        forall|k: int| 0 <= k < mags@.len() ==> mags@[k] < 0x1_0000_0000,
    ensures
        chroma@.len() == 12,
        crate::matcher::to_ints(chroma@) == chroma_spec(mags@, sr as int, n as int),
        forall|i: int| 0 <= i < 12 ==> chroma@[i] <= SCALE,
        seq_max(raw_chroma(mags@, sr as int, n as int, n as int / 2)) > 0 ==> exists|i: int|
            0 <= i < 12 && chroma@[i] == SCALE,
{
    let ghost gsr = sr as int;
    let ghost gn = n as int;
    let mut chroma: Vec<u64> = Vec::new();
    let mut z: usize = 0;
    while z < 12
        invariant
            z <= 12,
            chroma@.len() == z,
            forall|i: int| 0 <= i < z ==> chroma@[i] == 0,
        decreases 12 - z,
    {
        chroma.push(0);
        z = z + 1;
    }
    assert forall|i: int| 0 <= i < 12 implies chroma@.map_values(|v: u64| v as int)[i]
        == raw_chroma(mags@, gsr, gn, 0)[i] by {
        assert(raw_chroma(mags@, gsr, gn, 0)[i] == 0);
    }

    let mut k: usize = 0;
    let bins: usize = mags.len();
    proof {
        lemma_raw_chroma_bounds(mags@, gsr, gn, 0);
    }
    while k < bins
        invariant
            k <= bins,
            bins == mags@.len(),
            mags@.len() == gn / 2,
            gsr == sr as int,
            gn == n as int,
            1 <= sr < 0x1_0000_0000,
            n < 0x1_0000_0000,
            forall|j: int| 0 <= j < mags@.len() ==> mags@[j] < 0x1_0000_0000,
            chroma@.len() == 12,
            forall|i: int| 0 <= i < 12 ==>
                chroma@[i] as int == #[trigger] raw_chroma(mags@, gsr, gn, k as int)[i],
        decreases bins - k,
    {
        proof {
            lemma_raw_chroma_bounds(mags@, gsr, gn, k as int);
            lemma_raw_chroma_bounds(mags@, gsr, gn, k as int + 1);
        }
        proof {
            assert(k < 0x8000_0000);
            assert((k as int) * (sr as int) < 0x8000_0000_0000_0000) by (nonlinear_arith)
                requires
                    0 <= k < 0x8000_0000,
                    0 <= sr < 0x1_0000_0000,
            ;
        }
        let ks: u64 = (k as u64) * sr;
        if BAND_LOW_HZ * n <= ks && ks <= BAND_HIGH_HZ * n {
            assert(in_band(k as int, gsr, gn));
            let fm_wide: u128 = (k as u128) * (sr as u128) * 1000 / (n as u128);
            proof {
                let kk = k as int;
                assert(kk * gsr * 1000 >= BAND_LOW_HZ * gn * 1000);
                assert(kk * gsr * 1000 <= BAND_HIGH_HZ * gn * 1000);
                lemma_div_is_ordered(BAND_LOW_HZ * gn * 1000, kk * gsr * 1000, gn);
                lemma_div_is_ordered(kk * gsr * 1000, BAND_HIGH_HZ * gn * 1000, gn);
                assert(BAND_LOW_HZ * gn * 1000 == gn * 70000) by (nonlinear_arith);
                assert(BAND_HIGH_HZ * gn * 1000 == gn * 1500000) by (nonlinear_arith);
                lemma_div_multiples_vanish(70000, gn);
                lemma_div_multiples_vanish(1500000, gn);
                assert(70000 <= bin_freq_milli(kk, gsr, gn) <= 1500000);
            }
            let fm: u64 = fm_wide as u64;
            assert(fm as int == bin_freq_milli(k as int, gsr, gn));
            let pc = freq_to_pitch(fm);
            let ghost prev = raw_chroma(mags@, gsr, gn, k as int);
            let updated = chroma[pc] + mags[k];
            chroma[pc] = updated;
            proof {
                assert(raw_chroma(mags@, gsr, gn, k as int + 1) == prev.update(
                    pc as int,
                    prev[pc as int] + mags@[k as int],
                ));
            }
        } else {
            assert(!in_band(k as int, gsr, gn));
            assert(raw_chroma(mags@, gsr, gn, k as int + 1) == raw_chroma(
                mags@,
                gsr,
                gn,
                k as int,
            ));
        }
        k = k + 1;
    }

    let ghost raw = raw_chroma(mags@, gsr, gn, gn / 2);
    proof {
        lemma_raw_chroma_bounds(mags@, gsr, gn, gn / 2);
        lemma_seq_max(raw);
    }

    let mut maxv: u64 = 0;
    let mut i: usize = 0;
    while i < 12
        invariant
            i <= 12,
            chroma@.len() == 12,
            forall|j: int| 0 <= j < 12 ==> chroma@[j] as int == raw[j],
            raw.len() == 12,
            maxv as int == seq_max(raw.subrange(0, i as int)),
        decreases 12 - i,
    {
        proof {
            assert(raw.subrange(0, i as int + 1).drop_last() =~= raw.subrange(0, i as int));
            assert(raw.subrange(0, i as int + 1).last() == raw[i as int]);
        }
        if chroma[i] > maxv {
            maxv = chroma[i];
        }
        i = i + 1;
    }
    proof {
        assert(raw.subrange(0, 12) =~= raw);
        assert(maxv as int == seq_max(raw));
    }

    if maxv > 0 {
        let mut i: usize = 0;
        while i < 12
            invariant
                i <= 12,
                chroma@.len() == 12,
                raw.len() == 12,
                maxv as int == seq_max(raw),
                maxv > 0,
                forall|j: int| 0 <= j < raw.len() ==> raw[j] <= maxv as int,
                forall|j: int| 0 <= j < raw.len() ==> raw[j] >= 0,
                forall|j: int| i <= j < 12 ==> chroma@[j] as int == raw[j],
                forall|j: int| 0 <= j < i ==> chroma@[j] as int == raw[j] * SCALE / (
                maxv as int),
                forall|j: int| 0 <= j < i ==> chroma@[j] <= SCALE,
                exists|j: int| 0 <= j < 12 && raw[j] == maxv as int,
            decreases 12 - i,
        {
            let v: u64 = chroma[i];
            let scaled_wide: u128 = (v as u128) * (SCALE as u128) / (maxv as u128);
            proof {
                let m = maxv as int;
                assert(v as int == raw[i as int]);
                assert(raw[i as int] <= m);
                assert(v as int * SCALE <= m * SCALE) by (nonlinear_arith)
                    requires
                        v as int <= m,
                        v >= 0,
                ;
                lemma_div_is_ordered(v as int * SCALE, m * SCALE, m);
                assert(m * SCALE == m * (SCALE as int)) by (nonlinear_arith);
                lemma_div_multiples_vanish(SCALE as int, m);
                assert(scaled_wide as int == v as int * SCALE / m);
                assert(scaled_wide <= SCALE);
            }
            let scaled: u64 = scaled_wide as u64;
            chroma[i] = scaled;
            i = i + 1;
        }
        proof {
            assert(seq_max(raw) > 0);
            assert forall|j: int| 0 <= j < 12 implies chroma@.map_values(|v: u64| v as int)[j]
                == chroma_spec(mags@, gsr, gn)[j] by {
                assert(chroma@[j] as int == raw[j] * SCALE / (maxv as int));
            }
            assert(chroma@.map_values(|v: u64| v as int) =~= chroma_spec(mags@, gsr, gn));
            let j = choose|j: int| 0 <= j < 12 && raw[j] == maxv as int;
            lemma_div_multiples_vanish(SCALE as int, maxv as int);
            assert((maxv as int) * (SCALE as int) == raw[j] * SCALE) by (nonlinear_arith)
                requires
                    raw[j] == maxv as int,
            ;
            assert(chroma@[j] == SCALE);
        }
    } else {
        proof {
            assert(seq_max(raw) <= 0);
            assert forall|j: int| 0 <= j < 12 implies chroma@.map_values(|v: u64| v as int)[j]
                == chroma_spec(mags@, gsr, gn)[j] by {
                assert(chroma@[j] as int == raw[j]);
            }
            assert(chroma@.map_values(|v: u64| v as int) =~= chroma_spec(mags@, gsr, gn));
            assert forall|j: int| 0 <= j < 12 implies chroma@[j] <= SCALE by {
                assert(raw[j] <= seq_max(raw));
            }
        }
    }
    chroma
}


/// The order in which pitch classes rank for the diagnostic listing:
/// higher energy first, and among equal energies the higher pitch class.
pub open spec fn outranks(c: Seq<u64>, i: int, j: int) -> bool {
    c[i] > c[j] || (c[i] == c[j] && i > j)
}

/// The pitch class that ranks highest among those not excluded.  An
/// exclusion of 12 excludes nothing.
fn select_best(chroma: &Vec<u64>, excl0: usize, excl1: usize) -> (best: usize)
    requires
        chroma@.len() == 12,
        excl0 <= 12,
        excl1 <= 12,
        excl0 != excl1 || excl0 == 12,
    ensures
        best < 12,
        best != excl0,
        best != excl1,
        forall|j: int| 0 <= j < 12 && j != excl0 && j != excl1 && j != best
            ==> outranks(chroma@, best as int, j),
{
    let mut best: usize = if excl0 != 0 && excl1 != 0 {
        0
    } else if excl0 != 1 && excl1 != 1 {
        1
    } else {
        2
    };
    let mut j: usize = 0;
    while j < 12
        invariant
            j <= 12,
            chroma@.len() == 12,
            excl0 <= 12,
            excl1 <= 12,
            best < 12,
            best != excl0,
            best != excl1,
            forall|i: int| 0 <= i < j && i != excl0 && i != excl1 && i != best
                ==> outranks(chroma@, best as int, i),
        decreases 12 - j,
    {
        if j != excl0 && j != excl1 {
            if chroma[j] >= chroma[best] {
                let ghost ob = best as int;
                best = j;
                proof {
                    assert forall|i: int|
                        0 <= i < j + 1 && i != excl0 && i != excl1 && i != j as int implies outranks(
                        chroma@,
                        j as int,
                        i,
                    ) by {
                        if i != ob {
                            assert(outranks(chroma@, ob, i));
                        }
                    }
                }
            } else {
                assert(outranks(chroma@, best as int, j as int));
            }
        }
        j = j + 1;
    }
    best
}

/// The three strongest pitch classes, strongest first; equal energies rank
/// the higher pitch class first.  Every class left out ranks below every
/// class listed.
pub fn top_pitch_classes(chroma: &Vec<u64>) -> (top: Vec<usize>)
    requires
        chroma@.len() == 12,
    ensures
        top@.len() == 3,
        forall|a: int| 0 <= a < 3 ==> 0 <= #[trigger] top@[a] < 12,
        top@[0] != top@[1] && top@[0] != top@[2] && top@[1] != top@[2],
        outranks(chroma@, top@[0] as int, top@[1] as int),
        outranks(chroma@, top@[1] as int, top@[2] as int),
        forall|j: int| 0 <= j < 12 && j != top@[0] && j != top@[1] && j != top@[2]
            ==> outranks(chroma@, top@[2] as int, j),
{
    let first = select_best(chroma, 12, 12);
    let second = select_best(chroma, first, 12);
    let third = select_best(chroma, first, second);
    let mut top: Vec<usize> = Vec::new();
    top.push(first);
    top.push(second);
    top.push(third);
    top
}

} // verus!
