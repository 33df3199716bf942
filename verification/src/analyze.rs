//! The full decision: from spectrum magnitudes to a chord.
//!
//! The caller supplies the magnitudes of the spectral bins below the
//! Nyquist limit of an n-sample buffer; the library aggregates them into a
//! chroma profile and matches that profile against the triad templates.

use vstd::prelude::*;

verus! {

use crate::THRESHOLD;
use crate::chroma::chroma_from_spectrum;
use crate::chroma::chroma_spec;
use crate::chroma::in_band;
use crate::chroma::raw_chroma;
use crate::chroma::seq_max;
use crate::chroma::lemma_seq_max;
use crate::matcher::ChordResult;
use crate::matcher::Quality;
use crate::matcher::chord_match_spec;
use crate::matcher::lemma_zero_chroma_unknown;
use crate::matcher::match_chord;
use crate::matcher::score_spec;
use crate::matcher::to_ints;

/// The chord identified from the spectrum of an n-sample buffer at sample
/// rate sr.
pub open spec fn analyze_spec(mags: Seq<u64>, sr: int, n: int) -> ChordResult {
    chord_match_spec(chroma_spec(mags, sr, n))
}

/// Identify the chord in an n-sample buffer at sample rate sr from the
/// fixed-point magnitudes of its spectral bins below the Nyquist limit:
/// `mags[k]` is the magnitude at frequency k*sr/n Hz.
pub fn analyze_spectrum(mags: &Vec<u64>, sr: u64, n: u64) -> (r: ChordResult)
    requires
        mags@.len() == n as int / 2,
        1 <= sr < 0x1_0000_0000,
        n < 0x1_0000_0000,
        forall|k: int| 0 <= k < mags@.len() ==> mags@[k] < 0x1_0000_0000,
    ensures
        r == analyze_spec(mags@, sr as int, n as int),
        (r == ChordResult::Unknown <==> forall|root: int, q: Quality| 0 <= root < 12 ==>
            #[trigger] score_spec(chroma_spec(mags@, sr as int, n as int), root, q) <= THRESHOLD),
        r matches ChordResult::Chord { root, quality } ==> {
            &&& root < 12
            &&& score_spec(chroma_spec(mags@, sr as int, n as int), root as int, quality)
                > THRESHOLD
            &&& forall|root2: int, q2: Quality| 0 <= root2 < 12 ==>
                #[trigger] score_spec(chroma_spec(mags@, sr as int, n as int), root2, q2)
                    <= score_spec(chroma_spec(mags@, sr as int, n as int), root as int, quality)
        },
{
    let chroma = chroma_from_spectrum(mags, sr, n);
    let r = match_chord(&chroma);
    proof {
        assert(to_ints(chroma@) == chroma_spec(mags@, sr as int, n as int));
    }
    r
}

/// Determinism law: the reported chord is a function of the spectrum, the
/// sample rate and the buffer length alone, so two runs on equal inputs
/// agree.
pub proof fn lemma_determinism(
    mags1: Seq<u64>,
    sr1: int,
    n1: int,
    mags2: Seq<u64>,
    sr2: int,
    n2: int,
)
    requires
        mags1 == mags2,
        sr1 == sr2,
        n1 == n2,
    ensures
        analyze_spec(mags1, sr1, n1) == analyze_spec(mags2, sr2, n2),
{
}

/// The raw profile always has twelve non-negative entries.
pub proof fn lemma_raw_chroma_shape(mags: Seq<u64>, sr: int, n: int, bins: int)
    ensures
        raw_chroma(mags, sr, n, bins).len() == 12,
        forall|i: int| 0 <= i < 12 ==> #[trigger] raw_chroma(mags, sr, n, bins)[i] >= 0,
    decreases bins,
{
    if bins > 0 {
        lemma_raw_chroma_shape(mags, sr, n, bins - 1);
    }
}

/// A profile of zeros has maximum zero.
proof fn lemma_seq_max_zero(c: Seq<int>)
    requires
        forall|i: int| 0 <= i < c.len() ==> c[i] == 0,
    ensures
        seq_max(c) == 0,
{
    lemma_seq_max(c);
    if seq_max(c) > 0 {
        let i = choose|i: int| 0 <= i < c.len() && c[i] == seq_max(c);
        assert(false);
    }
}

/// When every in-band bin is silent, the raw profile is all-zero.
proof fn lemma_raw_chroma_silent(mags: Seq<u64>, sr: int, n: int, bins: int)
    requires
        0 <= bins <= mags.len(),
        forall|k: int| 0 <= k < mags.len() && #[trigger] in_band(k, sr, n) ==> mags[k] == 0,
    ensures
        forall|i: int| 0 <= i < 12 ==> #[trigger] raw_chroma(mags, sr, n, bins)[i] == 0,
    decreases bins,
{
    lemma_raw_chroma_shape(mags, sr, n, bins);
    if bins > 0 {
        lemma_raw_chroma_silent(mags, sr, n, bins - 1);
        lemma_raw_chroma_shape(mags, sr, n, bins - 1);
    }
}

/// Empty-input law: an empty sample buffer has no spectral bins, so the
/// chroma profile is all-zero and the result is Unknown, whatever the
/// sample rate.
pub proof fn lemma_empty_input_unknown(mags: Seq<u64>, sr: int, n: int)
    requires
        n == 0,
    ensures
        analyze_spec(mags, sr, n) == ChordResult::Unknown,
{
    let raw = raw_chroma(mags, sr, n, 0);
    assert(forall|i: int| 0 <= i < 12 ==> raw[i] == 0);
    lemma_seq_max_zero(raw);
    assert(chroma_spec(mags, sr, n) == raw);
    lemma_zero_chroma_unknown(raw);
}

/// The raw chroma accumulation reads only the magnitudes of in-band bins.
pub proof fn lemma_band_filtering_raw(mags1: Seq<u64>, mags2: Seq<u64>, sr: int, n: int, bins: int)
    requires
        mags1.len() == mags2.len(),
        0 <= bins <= mags1.len(),
        forall|k: int| 0 <= k < mags1.len() && #[trigger] in_band(k, sr, n) ==> mags1[k]
            == mags2[k],
    ensures
        raw_chroma(mags1, sr, n, bins) == raw_chroma(mags2, sr, n, bins),
    decreases bins,
{
    if bins > 0 {
        lemma_band_filtering_raw(mags1, mags2, sr, n, bins - 1);
    }
}

/// Band-filtering law: the chroma profile, and with it the reported chord,
/// depends only on the magnitudes of the bins inside the analysis band;
/// energy at out-of-band bins cannot influence the result.
pub proof fn lemma_band_filtering(mags1: Seq<u64>, mags2: Seq<u64>, sr: int, n: int)
    requires
        mags1.len() == mags2.len(),
        mags1.len() == n / 2,
        forall|k: int| 0 <= k < mags1.len() && #[trigger] in_band(k, sr, n) ==> mags1[k]
            == mags2[k],
    ensures
        chroma_spec(mags1, sr, n) == chroma_spec(mags2, sr, n),
        analyze_spec(mags1, sr, n) == analyze_spec(mags2, sr, n),
{
    lemma_band_filtering_raw(mags1, mags2, sr, n, n / 2);
}

/// Energy only outside the analysis band leaves the chroma profile
/// all-zero, so the result is Unknown.
pub proof fn lemma_out_of_band_energy_unknown(mags: Seq<u64>, sr: int, n: int)
    requires
        mags.len() == n / 2,
        forall|k: int| 0 <= k < mags.len() && #[trigger] in_band(k, sr, n) ==> mags[k] == 0,
    ensures
        analyze_spec(mags, sr, n) == ChordResult::Unknown,
{
    let raw = raw_chroma(mags, sr, n, n / 2);
    lemma_raw_chroma_shape(mags, sr, n, n / 2);
    lemma_raw_chroma_silent(mags, sr, n, n / 2);
    assert forall|i: int| 0 <= i < raw.len() implies raw[i] == 0 by {
        assert(raw[i] == 0);
    }
    lemma_seq_max_zero(raw);
    assert(chroma_spec(mags, sr, n) == raw);
    lemma_zero_chroma_unknown(raw);
}

} // verus!
