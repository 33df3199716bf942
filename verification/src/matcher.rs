//! Chord template matching.
//!
//! A chroma profile is scored against the major and minor triad templates
//! rotated to every root.  The best of the 24 scores wins; ties keep the
//! hypothesis evaluated first (roots ascending, major before minor), and a
//! chord is reported only when the best score strictly exceeds the
//! confidence threshold.

use vstd::prelude::*;

verus! {

use crate::SCALE;
use crate::THRESHOLD;

/// Quality of a triad: major or minor.
#[derive(PartialEq, Eq, Structural, Clone, Copy, Debug)]
pub enum Quality {
    Major,
    Minor,
}

/// Outcome of matching: a chord (root pitch class and quality), or Unknown
/// when no hypothesis scores above the confidence threshold.
#[derive(PartialEq, Eq, Structural, Clone, Copy, Debug)]
pub enum ChordResult {
    Unknown,
    Chord { root: usize, quality: Quality },
}

/// Scale-degree offset of the third above the root: four semitones for a
/// major triad, three for a minor one.
pub open spec fn third_offset(q: Quality) -> int {
    match q {
        Quality::Major => 4,
        Quality::Minor => 3,
    }
}

/// Weight of a triad template rooted at pitch class 0: one at the root, at
/// the third and at the perfect fifth, zero elsewhere.
pub open spec fn template_weight(q: Quality, i: int) -> u64 {
    if i == 0 || i == third_offset(q) || i == 7 {
        1u64
    } else {
        0u64
    }
}

/// The binary triad template of the given quality, rooted at pitch class 0.
pub fn base_template(q: Quality) -> (t: Vec<u64>)
    ensures
        t@.len() == 12,
        forall|i: int| 0 <= i < 12 ==> t@[i] == template_weight(q, i),
{
    let third: usize = match q {
        Quality::Major => 4,
        Quality::Minor => 3,
    };
    let mut t: Vec<u64> = Vec::new();
    let mut i: usize = 0;
    while i < 12
        invariant
            i <= 12,
            t@.len() == i,
            third == third_offset(q),
            forall|j: int| 0 <= j < i ==> t@[j] == template_weight(q, j),
        decreases 12 - i,
    {
        if i == 0 || i == third || i == 7 {
            t.push(1);
        } else {
            t.push(0);
        }
        i = i + 1;
    }
    t
}

/// Rotate a twelve-entry template so that a pattern rooted at pitch class 0
/// becomes the same pattern rooted at pitch class `shift`: the weight at
/// offset i moves to index (i + shift) % 12.
pub fn roll_template(template: &Vec<u64>, shift: usize) -> (out: Vec<u64>)
    requires
        template@.len() == 12,
        shift < 12,
    ensures
        out@.len() == 12,
        forall|j: int| 0 <= j < 12 ==> out@[j] == template@[(j + 12 - shift) % 12],
        forall|i: int| 0 <= i < 12 ==> out@[(i + shift) % 12] == template@[i],
{
    let mut out: Vec<u64> = Vec::new();
    let mut j: usize = 0;
    while j < 12
        invariant
            j <= 12,
            shift < 12,
            template@.len() == 12,
            out@.len() == j,
            forall|jj: int| 0 <= jj < j ==> out@[jj] == template@[(jj + 12 - shift) % 12],
        decreases 12 - j,
    {
        out.push(template[(j + 12 - shift) % 12]);
        j = j + 1;
    }
    assert forall|i: int| 0 <= i < 12 implies out@[(i + shift) % 12] == template@[i] by {
        let k = (i + shift) % 12;
        assert(k == if i + shift < 12 { i + shift } else { i + shift - 12 });
        assert((k + 12 - shift) % 12 == i);
    }
    out
}

/// Dot product of the first `i` entries of two vectors.
pub open spec fn dot_prefix(a: Seq<u64>, b: Seq<u64>, i: int) -> int
    decreases i,
{
    if i <= 0 {
        0
    } else {
        dot_prefix(a, b, i - 1) + a[i - 1] * b[i - 1]
    }
}

/// Dot product of two twelve-entry vectors.
pub open spec fn dot_spec(a: Seq<u64>, b: Seq<u64>) -> int {
    dot_prefix(a, b, 12)
}

/// Element-wise multiply-and-sum of a chroma profile with a binary
/// template.
pub fn dot(a: &Vec<u64>, b: &Vec<u64>) -> (sum: u64)
    requires
        a@.len() == 12,
        b@.len() == 12,
        forall|i: int| 0 <= i < 12 ==> a@[i] <= SCALE,
        forall|i: int| 0 <= i < 12 ==> b@[i] <= 1,
    ensures
        sum == dot_spec(a@, b@),
        sum <= 12 * SCALE,
{
    let mut sum: u64 = 0;
    let mut i: usize = 0;
    while i < 12
        invariant
            i <= 12,
            a@.len() == 12,
            b@.len() == 12,
            forall|j: int| 0 <= j < 12 ==> a@[j] <= SCALE,
            forall|j: int| 0 <= j < 12 ==> b@[j] <= 1,
            sum == dot_prefix(a@, b@, i as int),
            sum <= i * SCALE,
        decreases 12 - i,
    {
        let term: u64 = if b[i] == 1 {
            a[i]
        } else {
            0
        };
        assert(term == a@[i as int] * b@[i as int]);
        sum = sum + term;
        i = i + 1;
    }
    sum
}

/// The entries of a fixed-point vector as unbounded integers.
pub open spec fn to_ints(s: Seq<u64>) -> Seq<int> {
    s.map_values(|v: u64| v as int)
}

/// Score of the chord hypothesis (root, quality) against a chroma profile:
/// the sum of the chroma entries at the root, the third and the fifth.
pub open spec fn score_spec(c: Seq<int>, root: int, q: Quality) -> int {
    c[root % 12] + c[(root + third_offset(q)) % 12] + c[(root + 7) % 12]
}

/// The dot product of twelve-entry vectors written out term by term.
pub proof fn lemma_dot_unfold(a: Seq<u64>, b: Seq<u64>)
    requires
        a.len() == 12,
        b.len() == 12,
    ensures
        dot_spec(a, b) == a[0] * b[0] + a[1] * b[1] + a[2] * b[2] + a[3] * b[3]
            + a[4] * b[4] + a[5] * b[5] + a[6] * b[6] + a[7] * b[7]
            + a[8] * b[8] + a[9] * b[9] + a[10] * b[10] + a[11] * b[11],
{
    reveal_with_fuel(dot_prefix, 13);
}

/// A rotated binary major-triad template picks out exactly the root,
/// third and fifth of its hypothesis, so its dot product with the chroma
/// profile is the score.
#[verifier::rlimit(100)]
pub proof fn lemma_dot_rolled_major(c: Seq<u64>, rolled: Seq<u64>, shift: int)
    requires
        c.len() == 12,
        rolled.len() == 12,
        0 <= shift < 12,
        forall|j: int| 0 <= j < 12 ==> #[trigger] rolled[j] == template_weight(Quality::Major, (j + 12 - shift) % 12),
    ensures
        dot_spec(c, rolled) == score_spec(to_ints(c), shift, Quality::Major),
{
    lemma_dot_unfold(c, rolled);
    assert forall|i: int| 0 <= i < 12 implies to_ints(c)[i] == c[i] as int by {
        assert(to_ints(c)[i] == c[i] as int);
    }
    if shift == 0 {
        assert(rolled[0] == template_weight(Quality::Major, (0 + 12 - shift) % 12));
        assert(c[0] * rolled[0] == c[0]);
        assert(rolled[1] == template_weight(Quality::Major, (1 + 12 - shift) % 12));
        assert(c[1] * rolled[1] == 0);
        assert(rolled[2] == template_weight(Quality::Major, (2 + 12 - shift) % 12));
        assert(c[2] * rolled[2] == 0);
        assert(rolled[3] == template_weight(Quality::Major, (3 + 12 - shift) % 12));
        assert(c[3] * rolled[3] == 0);
        assert(rolled[4] == template_weight(Quality::Major, (4 + 12 - shift) % 12));
        assert(c[4] * rolled[4] == c[4]);
        assert(rolled[5] == template_weight(Quality::Major, (5 + 12 - shift) % 12));
        assert(c[5] * rolled[5] == 0);
        assert(rolled[6] == template_weight(Quality::Major, (6 + 12 - shift) % 12));
        assert(c[6] * rolled[6] == 0);
        assert(rolled[7] == template_weight(Quality::Major, (7 + 12 - shift) % 12));
        assert(c[7] * rolled[7] == c[7]);
        assert(rolled[8] == template_weight(Quality::Major, (8 + 12 - shift) % 12));
        assert(c[8] * rolled[8] == 0);
        assert(rolled[9] == template_weight(Quality::Major, (9 + 12 - shift) % 12));
        assert(c[9] * rolled[9] == 0);
        assert(rolled[10] == template_weight(Quality::Major, (10 + 12 - shift) % 12));
        assert(c[10] * rolled[10] == 0);
        assert(rolled[11] == template_weight(Quality::Major, (11 + 12 - shift) % 12));
        assert(c[11] * rolled[11] == 0);
        assert(dot_spec(c, rolled) == c[0] + c[4] + c[7]);
    } else if shift == 1 {
        assert(rolled[0] == template_weight(Quality::Major, (0 + 12 - shift) % 12));
        assert(c[0] * rolled[0] == 0);
        assert(rolled[1] == template_weight(Quality::Major, (1 + 12 - shift) % 12));
        assert(c[1] * rolled[1] == c[1]);
        assert(rolled[2] == template_weight(Quality::Major, (2 + 12 - shift) % 12));
        assert(c[2] * rolled[2] == 0);
        assert(rolled[3] == template_weight(Quality::Major, (3 + 12 - shift) % 12));
        assert(c[3] * rolled[3] == 0);
        assert(rolled[4] == template_weight(Quality::Major, (4 + 12 - shift) % 12));
        assert(c[4] * rolled[4] == 0);
        assert(rolled[5] == template_weight(Quality::Major, (5 + 12 - shift) % 12));
        assert(c[5] * rolled[5] == c[5]);
        assert(rolled[6] == template_weight(Quality::Major, (6 + 12 - shift) % 12));
        assert(c[6] * rolled[6] == 0);
        assert(rolled[7] == template_weight(Quality::Major, (7 + 12 - shift) % 12));
        assert(c[7] * rolled[7] == 0);
        assert(rolled[8] == template_weight(Quality::Major, (8 + 12 - shift) % 12));
        assert(c[8] * rolled[8] == c[8]);
        assert(rolled[9] == template_weight(Quality::Major, (9 + 12 - shift) % 12));
        assert(c[9] * rolled[9] == 0);
        assert(rolled[10] == template_weight(Quality::Major, (10 + 12 - shift) % 12));
        assert(c[10] * rolled[10] == 0);
        assert(rolled[11] == template_weight(Quality::Major, (11 + 12 - shift) % 12));
        assert(c[11] * rolled[11] == 0);
        assert(dot_spec(c, rolled) == c[1] + c[5] + c[8]);
    } else if shift == 2 {
        assert(rolled[0] == template_weight(Quality::Major, (0 + 12 - shift) % 12));
        assert(c[0] * rolled[0] == 0);
        assert(rolled[1] == template_weight(Quality::Major, (1 + 12 - shift) % 12));
        assert(c[1] * rolled[1] == 0);
        assert(rolled[2] == template_weight(Quality::Major, (2 + 12 - shift) % 12));
        assert(c[2] * rolled[2] == c[2]);
        assert(rolled[3] == template_weight(Quality::Major, (3 + 12 - shift) % 12));
        assert(c[3] * rolled[3] == 0);
        assert(rolled[4] == template_weight(Quality::Major, (4 + 12 - shift) % 12));
        assert(c[4] * rolled[4] == 0);
        assert(rolled[5] == template_weight(Quality::Major, (5 + 12 - shift) % 12));
        assert(c[5] * rolled[5] == 0);
        assert(rolled[6] == template_weight(Quality::Major, (6 + 12 - shift) % 12));
        assert(c[6] * rolled[6] == c[6]);
        assert(rolled[7] == template_weight(Quality::Major, (7 + 12 - shift) % 12));
        assert(c[7] * rolled[7] == 0);
        assert(rolled[8] == template_weight(Quality::Major, (8 + 12 - shift) % 12));
        assert(c[8] * rolled[8] == 0);
        assert(rolled[9] == template_weight(Quality::Major, (9 + 12 - shift) % 12));
        assert(c[9] * rolled[9] == c[9]);
        assert(rolled[10] == template_weight(Quality::Major, (10 + 12 - shift) % 12));
        assert(c[10] * rolled[10] == 0);
        assert(rolled[11] == template_weight(Quality::Major, (11 + 12 - shift) % 12));
        assert(c[11] * rolled[11] == 0);
        assert(dot_spec(c, rolled) == c[2] + c[6] + c[9]);
    } else if shift == 3 {
        assert(rolled[0] == template_weight(Quality::Major, (0 + 12 - shift) % 12));
        assert(c[0] * rolled[0] == 0);
        assert(rolled[1] == template_weight(Quality::Major, (1 + 12 - shift) % 12));
        assert(c[1] * rolled[1] == 0);
        assert(rolled[2] == template_weight(Quality::Major, (2 + 12 - shift) % 12));
        assert(c[2] * rolled[2] == 0);
        assert(rolled[3] == template_weight(Quality::Major, (3 + 12 - shift) % 12));
        assert(c[3] * rolled[3] == c[3]);
        assert(rolled[4] == template_weight(Quality::Major, (4 + 12 - shift) % 12));
        assert(c[4] * rolled[4] == 0);
        assert(rolled[5] == template_weight(Quality::Major, (5 + 12 - shift) % 12));
        assert(c[5] * rolled[5] == 0);
        assert(rolled[6] == template_weight(Quality::Major, (6 + 12 - shift) % 12));
        assert(c[6] * rolled[6] == 0);
        assert(rolled[7] == template_weight(Quality::Major, (7 + 12 - shift) % 12));
        assert(c[7] * rolled[7] == c[7]);
        assert(rolled[8] == template_weight(Quality::Major, (8 + 12 - shift) % 12));
        assert(c[8] * rolled[8] == 0);
        assert(rolled[9] == template_weight(Quality::Major, (9 + 12 - shift) % 12));
        assert(c[9] * rolled[9] == 0);
        assert(rolled[10] == template_weight(Quality::Major, (10 + 12 - shift) % 12));
        assert(c[10] * rolled[10] == c[10]);
        assert(rolled[11] == template_weight(Quality::Major, (11 + 12 - shift) % 12));
        assert(c[11] * rolled[11] == 0);
        assert(dot_spec(c, rolled) == c[3] + c[7] + c[10]);
    } else if shift == 4 {
        assert(rolled[0] == template_weight(Quality::Major, (0 + 12 - shift) % 12));
        assert(c[0] * rolled[0] == 0);
        assert(rolled[1] == template_weight(Quality::Major, (1 + 12 - shift) % 12));
        assert(c[1] * rolled[1] == 0);
        assert(rolled[2] == template_weight(Quality::Major, (2 + 12 - shift) % 12));
        assert(c[2] * rolled[2] == 0);
        assert(rolled[3] == template_weight(Quality::Major, (3 + 12 - shift) % 12));
        assert(c[3] * rolled[3] == 0);
        assert(rolled[4] == template_weight(Quality::Major, (4 + 12 - shift) % 12));
        assert(c[4] * rolled[4] == c[4]);
        assert(rolled[5] == template_weight(Quality::Major, (5 + 12 - shift) % 12));
        assert(c[5] * rolled[5] == 0);
        assert(rolled[6] == template_weight(Quality::Major, (6 + 12 - shift) % 12));
        assert(c[6] * rolled[6] == 0);
        assert(rolled[7] == template_weight(Quality::Major, (7 + 12 - shift) % 12));
        assert(c[7] * rolled[7] == 0);
        assert(rolled[8] == template_weight(Quality::Major, (8 + 12 - shift) % 12));
        assert(c[8] * rolled[8] == c[8]);
        assert(rolled[9] == template_weight(Quality::Major, (9 + 12 - shift) % 12));
        assert(c[9] * rolled[9] == 0);
        assert(rolled[10] == template_weight(Quality::Major, (10 + 12 - shift) % 12));
        assert(c[10] * rolled[10] == 0);
        assert(rolled[11] == template_weight(Quality::Major, (11 + 12 - shift) % 12));
        assert(c[11] * rolled[11] == c[11]);
        assert(dot_spec(c, rolled) == c[4] + c[8] + c[11]);
    } else if shift == 5 {
        assert(rolled[0] == template_weight(Quality::Major, (0 + 12 - shift) % 12));
        assert(c[0] * rolled[0] == c[0]);
        assert(rolled[1] == template_weight(Quality::Major, (1 + 12 - shift) % 12));
        assert(c[1] * rolled[1] == 0);
        assert(rolled[2] == template_weight(Quality::Major, (2 + 12 - shift) % 12));
        assert(c[2] * rolled[2] == 0);
        assert(rolled[3] == template_weight(Quality::Major, (3 + 12 - shift) % 12));
        assert(c[3] * rolled[3] == 0);
        assert(rolled[4] == template_weight(Quality::Major, (4 + 12 - shift) % 12));
        assert(c[4] * rolled[4] == 0);
        assert(rolled[5] == template_weight(Quality::Major, (5 + 12 - shift) % 12));
        assert(c[5] * rolled[5] == c[5]);
        assert(rolled[6] == template_weight(Quality::Major, (6 + 12 - shift) % 12));
        assert(c[6] * rolled[6] == 0);
        assert(rolled[7] == template_weight(Quality::Major, (7 + 12 - shift) % 12));
        assert(c[7] * rolled[7] == 0);
        assert(rolled[8] == template_weight(Quality::Major, (8 + 12 - shift) % 12));
        assert(c[8] * rolled[8] == 0);
        assert(rolled[9] == template_weight(Quality::Major, (9 + 12 - shift) % 12));
        assert(c[9] * rolled[9] == c[9]);
        assert(rolled[10] == template_weight(Quality::Major, (10 + 12 - shift) % 12));
        assert(c[10] * rolled[10] == 0);
        assert(rolled[11] == template_weight(Quality::Major, (11 + 12 - shift) % 12));
        assert(c[11] * rolled[11] == 0);
        assert(dot_spec(c, rolled) == c[5] + c[9] + c[0]);
    } else if shift == 6 {
        assert(rolled[0] == template_weight(Quality::Major, (0 + 12 - shift) % 12));
        assert(c[0] * rolled[0] == 0);
        assert(rolled[1] == template_weight(Quality::Major, (1 + 12 - shift) % 12));
        assert(c[1] * rolled[1] == c[1]);
        assert(rolled[2] == template_weight(Quality::Major, (2 + 12 - shift) % 12));
        assert(c[2] * rolled[2] == 0);
        assert(rolled[3] == template_weight(Quality::Major, (3 + 12 - shift) % 12));
        assert(c[3] * rolled[3] == 0);
        assert(rolled[4] == template_weight(Quality::Major, (4 + 12 - shift) % 12));
        assert(c[4] * rolled[4] == 0);
        assert(rolled[5] == template_weight(Quality::Major, (5 + 12 - shift) % 12));
        assert(c[5] * rolled[5] == 0);
        assert(rolled[6] == template_weight(Quality::Major, (6 + 12 - shift) % 12));
        assert(c[6] * rolled[6] == c[6]);
        assert(rolled[7] == template_weight(Quality::Major, (7 + 12 - shift) % 12));
        assert(c[7] * rolled[7] == 0);
        assert(rolled[8] == template_weight(Quality::Major, (8 + 12 - shift) % 12));
        assert(c[8] * rolled[8] == 0);
        assert(rolled[9] == template_weight(Quality::Major, (9 + 12 - shift) % 12));
        assert(c[9] * rolled[9] == 0);
        assert(rolled[10] == template_weight(Quality::Major, (10 + 12 - shift) % 12));
        assert(c[10] * rolled[10] == c[10]);
        assert(rolled[11] == template_weight(Quality::Major, (11 + 12 - shift) % 12));
        assert(c[11] * rolled[11] == 0);
        assert(dot_spec(c, rolled) == c[6] + c[10] + c[1]);
    } else if shift == 7 {
        assert(rolled[0] == template_weight(Quality::Major, (0 + 12 - shift) % 12));
        assert(c[0] * rolled[0] == 0);
        assert(rolled[1] == template_weight(Quality::Major, (1 + 12 - shift) % 12));
        assert(c[1] * rolled[1] == 0);
        assert(rolled[2] == template_weight(Quality::Major, (2 + 12 - shift) % 12));
        assert(c[2] * rolled[2] == c[2]);
        assert(rolled[3] == template_weight(Quality::Major, (3 + 12 - shift) % 12));
        assert(c[3] * rolled[3] == 0);
        assert(rolled[4] == template_weight(Quality::Major, (4 + 12 - shift) % 12));
        assert(c[4] * rolled[4] == 0);
        assert(rolled[5] == template_weight(Quality::Major, (5 + 12 - shift) % 12));
        assert(c[5] * rolled[5] == 0);
        assert(rolled[6] == template_weight(Quality::Major, (6 + 12 - shift) % 12));
        assert(c[6] * rolled[6] == 0);
        assert(rolled[7] == template_weight(Quality::Major, (7 + 12 - shift) % 12));
        assert(c[7] * rolled[7] == c[7]);
        assert(rolled[8] == template_weight(Quality::Major, (8 + 12 - shift) % 12));
        assert(c[8] * rolled[8] == 0);
        assert(rolled[9] == template_weight(Quality::Major, (9 + 12 - shift) % 12));
        assert(c[9] * rolled[9] == 0);
        assert(rolled[10] == template_weight(Quality::Major, (10 + 12 - shift) % 12));
        assert(c[10] * rolled[10] == 0);
        assert(rolled[11] == template_weight(Quality::Major, (11 + 12 - shift) % 12));
        assert(c[11] * rolled[11] == c[11]);
        assert(dot_spec(c, rolled) == c[7] + c[11] + c[2]);
    } else if shift == 8 {
        assert(rolled[0] == template_weight(Quality::Major, (0 + 12 - shift) % 12));
        assert(c[0] * rolled[0] == c[0]);
        assert(rolled[1] == template_weight(Quality::Major, (1 + 12 - shift) % 12));
        assert(c[1] * rolled[1] == 0);
        assert(rolled[2] == template_weight(Quality::Major, (2 + 12 - shift) % 12));
        assert(c[2] * rolled[2] == 0);
        assert(rolled[3] == template_weight(Quality::Major, (3 + 12 - shift) % 12));
        assert(c[3] * rolled[3] == c[3]);
        assert(rolled[4] == template_weight(Quality::Major, (4 + 12 - shift) % 12));
        assert(c[4] * rolled[4] == 0);
        assert(rolled[5] == template_weight(Quality::Major, (5 + 12 - shift) % 12));
        assert(c[5] * rolled[5] == 0);
        assert(rolled[6] == template_weight(Quality::Major, (6 + 12 - shift) % 12));
        assert(c[6] * rolled[6] == 0);
        assert(rolled[7] == template_weight(Quality::Major, (7 + 12 - shift) % 12));
        assert(c[7] * rolled[7] == 0);
        assert(rolled[8] == template_weight(Quality::Major, (8 + 12 - shift) % 12));
        assert(c[8] * rolled[8] == c[8]);
        assert(rolled[9] == template_weight(Quality::Major, (9 + 12 - shift) % 12));
        assert(c[9] * rolled[9] == 0);
        assert(rolled[10] == template_weight(Quality::Major, (10 + 12 - shift) % 12));
        assert(c[10] * rolled[10] == 0);
        assert(rolled[11] == template_weight(Quality::Major, (11 + 12 - shift) % 12));
        assert(c[11] * rolled[11] == 0);
        assert(dot_spec(c, rolled) == c[8] + c[0] + c[3]);
    } else if shift == 9 {
        assert(rolled[0] == template_weight(Quality::Major, (0 + 12 - shift) % 12));
        assert(c[0] * rolled[0] == 0);
        assert(rolled[1] == template_weight(Quality::Major, (1 + 12 - shift) % 12));
        assert(c[1] * rolled[1] == c[1]);
        assert(rolled[2] == template_weight(Quality::Major, (2 + 12 - shift) % 12));
        assert(c[2] * rolled[2] == 0);
        assert(rolled[3] == template_weight(Quality::Major, (3 + 12 - shift) % 12));
        assert(c[3] * rolled[3] == 0);
        assert(rolled[4] == template_weight(Quality::Major, (4 + 12 - shift) % 12));
        assert(c[4] * rolled[4] == c[4]);
        assert(rolled[5] == template_weight(Quality::Major, (5 + 12 - shift) % 12));
        assert(c[5] * rolled[5] == 0);
        assert(rolled[6] == template_weight(Quality::Major, (6 + 12 - shift) % 12));
        assert(c[6] * rolled[6] == 0);
        assert(rolled[7] == template_weight(Quality::Major, (7 + 12 - shift) % 12));
        assert(c[7] * rolled[7] == 0);
        assert(rolled[8] == template_weight(Quality::Major, (8 + 12 - shift) % 12));
        assert(c[8] * rolled[8] == 0);
        assert(rolled[9] == template_weight(Quality::Major, (9 + 12 - shift) % 12));
        assert(c[9] * rolled[9] == c[9]);
        assert(rolled[10] == template_weight(Quality::Major, (10 + 12 - shift) % 12));
        assert(c[10] * rolled[10] == 0);
        assert(rolled[11] == template_weight(Quality::Major, (11 + 12 - shift) % 12));
        assert(c[11] * rolled[11] == 0);
        assert(dot_spec(c, rolled) == c[9] + c[1] + c[4]);
    } else if shift == 10 {
        assert(rolled[0] == template_weight(Quality::Major, (0 + 12 - shift) % 12));
        assert(c[0] * rolled[0] == 0);
        assert(rolled[1] == template_weight(Quality::Major, (1 + 12 - shift) % 12));
        assert(c[1] * rolled[1] == 0);
        assert(rolled[2] == template_weight(Quality::Major, (2 + 12 - shift) % 12));
        assert(c[2] * rolled[2] == c[2]);
        assert(rolled[3] == template_weight(Quality::Major, (3 + 12 - shift) % 12));
        assert(c[3] * rolled[3] == 0);
        assert(rolled[4] == template_weight(Quality::Major, (4 + 12 - shift) % 12));
        assert(c[4] * rolled[4] == 0);
        assert(rolled[5] == template_weight(Quality::Major, (5 + 12 - shift) % 12));
        assert(c[5] * rolled[5] == c[5]);
        assert(rolled[6] == template_weight(Quality::Major, (6 + 12 - shift) % 12));
        assert(c[6] * rolled[6] == 0);
        assert(rolled[7] == template_weight(Quality::Major, (7 + 12 - shift) % 12));
        assert(c[7] * rolled[7] == 0);
        assert(rolled[8] == template_weight(Quality::Major, (8 + 12 - shift) % 12));
        assert(c[8] * rolled[8] == 0);
        assert(rolled[9] == template_weight(Quality::Major, (9 + 12 - shift) % 12));
        assert(c[9] * rolled[9] == 0);
        assert(rolled[10] == template_weight(Quality::Major, (10 + 12 - shift) % 12));
        assert(c[10] * rolled[10] == c[10]);
        assert(rolled[11] == template_weight(Quality::Major, (11 + 12 - shift) % 12));
        assert(c[11] * rolled[11] == 0);
        assert(dot_spec(c, rolled) == c[10] + c[2] + c[5]);
    } else {
        assert(rolled[0] == template_weight(Quality::Major, (0 + 12 - shift) % 12));
        assert(c[0] * rolled[0] == 0);
        assert(rolled[1] == template_weight(Quality::Major, (1 + 12 - shift) % 12));
        assert(c[1] * rolled[1] == 0);
        assert(rolled[2] == template_weight(Quality::Major, (2 + 12 - shift) % 12));
        assert(c[2] * rolled[2] == 0);
        assert(rolled[3] == template_weight(Quality::Major, (3 + 12 - shift) % 12));
        assert(c[3] * rolled[3] == c[3]);
        assert(rolled[4] == template_weight(Quality::Major, (4 + 12 - shift) % 12));
        assert(c[4] * rolled[4] == 0);
        assert(rolled[5] == template_weight(Quality::Major, (5 + 12 - shift) % 12));
        assert(c[5] * rolled[5] == 0);
        assert(rolled[6] == template_weight(Quality::Major, (6 + 12 - shift) % 12));
        assert(c[6] * rolled[6] == c[6]);
        assert(rolled[7] == template_weight(Quality::Major, (7 + 12 - shift) % 12));
        assert(c[7] * rolled[7] == 0);
        assert(rolled[8] == template_weight(Quality::Major, (8 + 12 - shift) % 12));
        assert(c[8] * rolled[8] == 0);
        assert(rolled[9] == template_weight(Quality::Major, (9 + 12 - shift) % 12));
        assert(c[9] * rolled[9] == 0);
        assert(rolled[10] == template_weight(Quality::Major, (10 + 12 - shift) % 12));
        assert(c[10] * rolled[10] == 0);
        assert(rolled[11] == template_weight(Quality::Major, (11 + 12 - shift) % 12));
        assert(c[11] * rolled[11] == c[11]);
        assert(dot_spec(c, rolled) == c[11] + c[3] + c[6]);
    }
}

/// A rotated binary minor-triad template picks out exactly the root,
/// third and fifth of its hypothesis, so its dot product with the chroma
/// profile is the score.
#[verifier::rlimit(100)]
pub proof fn lemma_dot_rolled_minor(c: Seq<u64>, rolled: Seq<u64>, shift: int)
    requires
        c.len() == 12,
        rolled.len() == 12,
        0 <= shift < 12,
        forall|j: int| 0 <= j < 12 ==> #[trigger] rolled[j] == template_weight(Quality::Minor, (j + 12 - shift) % 12),
    ensures
        dot_spec(c, rolled) == score_spec(to_ints(c), shift, Quality::Minor),
{
    lemma_dot_unfold(c, rolled);
    assert forall|i: int| 0 <= i < 12 implies to_ints(c)[i] == c[i] as int by {
        assert(to_ints(c)[i] == c[i] as int);
    }
    if shift == 0 {
        assert(rolled[0] == template_weight(Quality::Minor, (0 + 12 - shift) % 12));
        assert(c[0] * rolled[0] == c[0]);
        assert(rolled[1] == template_weight(Quality::Minor, (1 + 12 - shift) % 12));
        assert(c[1] * rolled[1] == 0);
        assert(rolled[2] == template_weight(Quality::Minor, (2 + 12 - shift) % 12));
        assert(c[2] * rolled[2] == 0);
        assert(rolled[3] == template_weight(Quality::Minor, (3 + 12 - shift) % 12));
        assert(c[3] * rolled[3] == c[3]);
        assert(rolled[4] == template_weight(Quality::Minor, (4 + 12 - shift) % 12));
        assert(c[4] * rolled[4] == 0);
        assert(rolled[5] == template_weight(Quality::Minor, (5 + 12 - shift) % 12));
        assert(c[5] * rolled[5] == 0);
        assert(rolled[6] == template_weight(Quality::Minor, (6 + 12 - shift) % 12));
        assert(c[6] * rolled[6] == 0);
        assert(rolled[7] == template_weight(Quality::Minor, (7 + 12 - shift) % 12));
        assert(c[7] * rolled[7] == c[7]);
        assert(rolled[8] == template_weight(Quality::Minor, (8 + 12 - shift) % 12));
        assert(c[8] * rolled[8] == 0);
        assert(rolled[9] == template_weight(Quality::Minor, (9 + 12 - shift) % 12));
        assert(c[9] * rolled[9] == 0);
        assert(rolled[10] == template_weight(Quality::Minor, (10 + 12 - shift) % 12));
        assert(c[10] * rolled[10] == 0);
        assert(rolled[11] == template_weight(Quality::Minor, (11 + 12 - shift) % 12));
        assert(c[11] * rolled[11] == 0);
        assert(dot_spec(c, rolled) == c[0] + c[3] + c[7]);
    } else if shift == 1 {
        assert(rolled[0] == template_weight(Quality::Minor, (0 + 12 - shift) % 12));
        assert(c[0] * rolled[0] == 0);
        assert(rolled[1] == template_weight(Quality::Minor, (1 + 12 - shift) % 12));
        assert(c[1] * rolled[1] == c[1]);
        assert(rolled[2] == template_weight(Quality::Minor, (2 + 12 - shift) % 12));
        assert(c[2] * rolled[2] == 0);
        assert(rolled[3] == template_weight(Quality::Minor, (3 + 12 - shift) % 12));
        assert(c[3] * rolled[3] == 0);
        assert(rolled[4] == template_weight(Quality::Minor, (4 + 12 - shift) % 12));
        assert(c[4] * rolled[4] == c[4]);
        assert(rolled[5] == template_weight(Quality::Minor, (5 + 12 - shift) % 12));
        assert(c[5] * rolled[5] == 0);
        assert(rolled[6] == template_weight(Quality::Minor, (6 + 12 - shift) % 12));
        assert(c[6] * rolled[6] == 0);
        assert(rolled[7] == template_weight(Quality::Minor, (7 + 12 - shift) % 12));
        assert(c[7] * rolled[7] == 0);
        assert(rolled[8] == template_weight(Quality::Minor, (8 + 12 - shift) % 12));
        assert(c[8] * rolled[8] == c[8]);
        assert(rolled[9] == template_weight(Quality::Minor, (9 + 12 - shift) % 12));
        assert(c[9] * rolled[9] == 0);
        assert(rolled[10] == template_weight(Quality::Minor, (10 + 12 - shift) % 12));
        assert(c[10] * rolled[10] == 0);
        assert(rolled[11] == template_weight(Quality::Minor, (11 + 12 - shift) % 12));
        assert(c[11] * rolled[11] == 0);
        assert(dot_spec(c, rolled) == c[1] + c[4] + c[8]);
    } else if shift == 2 {
        assert(rolled[0] == template_weight(Quality::Minor, (0 + 12 - shift) % 12));
        assert(c[0] * rolled[0] == 0);
        assert(rolled[1] == template_weight(Quality::Minor, (1 + 12 - shift) % 12));
        assert(c[1] * rolled[1] == 0);
        assert(rolled[2] == template_weight(Quality::Minor, (2 + 12 - shift) % 12));
        assert(c[2] * rolled[2] == c[2]);
        assert(rolled[3] == template_weight(Quality::Minor, (3 + 12 - shift) % 12));
        assert(c[3] * rolled[3] == 0);
        assert(rolled[4] == template_weight(Quality::Minor, (4 + 12 - shift) % 12));
        assert(c[4] * rolled[4] == 0);
        assert(rolled[5] == template_weight(Quality::Minor, (5 + 12 - shift) % 12));
        assert(c[5] * rolled[5] == c[5]);
        assert(rolled[6] == template_weight(Quality::Minor, (6 + 12 - shift) % 12));
        assert(c[6] * rolled[6] == 0);
        assert(rolled[7] == template_weight(Quality::Minor, (7 + 12 - shift) % 12));
        assert(c[7] * rolled[7] == 0);
        assert(rolled[8] == template_weight(Quality::Minor, (8 + 12 - shift) % 12));
        assert(c[8] * rolled[8] == 0);
        assert(rolled[9] == template_weight(Quality::Minor, (9 + 12 - shift) % 12));
        assert(c[9] * rolled[9] == c[9]);
        assert(rolled[10] == template_weight(Quality::Minor, (10 + 12 - shift) % 12));
        assert(c[10] * rolled[10] == 0);
        assert(rolled[11] == template_weight(Quality::Minor, (11 + 12 - shift) % 12));
        assert(c[11] * rolled[11] == 0);
        assert(dot_spec(c, rolled) == c[2] + c[5] + c[9]);
    } else if shift == 3 {
        assert(rolled[0] == template_weight(Quality::Minor, (0 + 12 - shift) % 12));
        assert(c[0] * rolled[0] == 0);
        assert(rolled[1] == template_weight(Quality::Minor, (1 + 12 - shift) % 12));
        assert(c[1] * rolled[1] == 0);
        assert(rolled[2] == template_weight(Quality::Minor, (2 + 12 - shift) % 12));
        assert(c[2] * rolled[2] == 0);
        assert(rolled[3] == template_weight(Quality::Minor, (3 + 12 - shift) % 12));
        assert(c[3] * rolled[3] == c[3]);
        assert(rolled[4] == template_weight(Quality::Minor, (4 + 12 - shift) % 12));
        assert(c[4] * rolled[4] == 0);
        assert(rolled[5] == template_weight(Quality::Minor, (5 + 12 - shift) % 12));
        assert(c[5] * rolled[5] == 0);
        assert(rolled[6] == template_weight(Quality::Minor, (6 + 12 - shift) % 12));
        assert(c[6] * rolled[6] == c[6]);
        assert(rolled[7] == template_weight(Quality::Minor, (7 + 12 - shift) % 12));
        assert(c[7] * rolled[7] == 0);
        assert(rolled[8] == template_weight(Quality::Minor, (8 + 12 - shift) % 12));
        assert(c[8] * rolled[8] == 0);
        assert(rolled[9] == template_weight(Quality::Minor, (9 + 12 - shift) % 12));
        assert(c[9] * rolled[9] == 0);
        assert(rolled[10] == template_weight(Quality::Minor, (10 + 12 - shift) % 12));
        assert(c[10] * rolled[10] == c[10]);
        assert(rolled[11] == template_weight(Quality::Minor, (11 + 12 - shift) % 12));
        assert(c[11] * rolled[11] == 0);
        assert(dot_spec(c, rolled) == c[3] + c[6] + c[10]);
    } else if shift == 4 {
        assert(rolled[0] == template_weight(Quality::Minor, (0 + 12 - shift) % 12));
        assert(c[0] * rolled[0] == 0);
        assert(rolled[1] == template_weight(Quality::Minor, (1 + 12 - shift) % 12));
        assert(c[1] * rolled[1] == 0);
        assert(rolled[2] == template_weight(Quality::Minor, (2 + 12 - shift) % 12));
        assert(c[2] * rolled[2] == 0);
        assert(rolled[3] == template_weight(Quality::Minor, (3 + 12 - shift) % 12));
        assert(c[3] * rolled[3] == 0);
        assert(rolled[4] == template_weight(Quality::Minor, (4 + 12 - shift) % 12));
        assert(c[4] * rolled[4] == c[4]);
        assert(rolled[5] == template_weight(Quality::Minor, (5 + 12 - shift) % 12));
        assert(c[5] * rolled[5] == 0);
        assert(rolled[6] == template_weight(Quality::Minor, (6 + 12 - shift) % 12));
        assert(c[6] * rolled[6] == 0);
        assert(rolled[7] == template_weight(Quality::Minor, (7 + 12 - shift) % 12));
        assert(c[7] * rolled[7] == c[7]);
        assert(rolled[8] == template_weight(Quality::Minor, (8 + 12 - shift) % 12));
        assert(c[8] * rolled[8] == 0);
        assert(rolled[9] == template_weight(Quality::Minor, (9 + 12 - shift) % 12));
        assert(c[9] * rolled[9] == 0);
        assert(rolled[10] == template_weight(Quality::Minor, (10 + 12 - shift) % 12));
        assert(c[10] * rolled[10] == 0);
        assert(rolled[11] == template_weight(Quality::Minor, (11 + 12 - shift) % 12));
        assert(c[11] * rolled[11] == c[11]);
        assert(dot_spec(c, rolled) == c[4] + c[7] + c[11]);
    } else if shift == 5 {
        assert(rolled[0] == template_weight(Quality::Minor, (0 + 12 - shift) % 12));
        assert(c[0] * rolled[0] == c[0]);
        assert(rolled[1] == template_weight(Quality::Minor, (1 + 12 - shift) % 12));
        assert(c[1] * rolled[1] == 0);
        assert(rolled[2] == template_weight(Quality::Minor, (2 + 12 - shift) % 12));
        assert(c[2] * rolled[2] == 0);
        assert(rolled[3] == template_weight(Quality::Minor, (3 + 12 - shift) % 12));
        assert(c[3] * rolled[3] == 0);
        assert(rolled[4] == template_weight(Quality::Minor, (4 + 12 - shift) % 12));
        assert(c[4] * rolled[4] == 0);
        assert(rolled[5] == template_weight(Quality::Minor, (5 + 12 - shift) % 12));
        assert(c[5] * rolled[5] == c[5]);
        assert(rolled[6] == template_weight(Quality::Minor, (6 + 12 - shift) % 12));
        assert(c[6] * rolled[6] == 0);
        assert(rolled[7] == template_weight(Quality::Minor, (7 + 12 - shift) % 12));
        assert(c[7] * rolled[7] == 0);
        assert(rolled[8] == template_weight(Quality::Minor, (8 + 12 - shift) % 12));
        assert(c[8] * rolled[8] == c[8]);
        assert(rolled[9] == template_weight(Quality::Minor, (9 + 12 - shift) % 12));
        assert(c[9] * rolled[9] == 0);
        assert(rolled[10] == template_weight(Quality::Minor, (10 + 12 - shift) % 12));
        assert(c[10] * rolled[10] == 0);
        assert(rolled[11] == template_weight(Quality::Minor, (11 + 12 - shift) % 12));
        assert(c[11] * rolled[11] == 0);
        assert(dot_spec(c, rolled) == c[5] + c[8] + c[0]);
    } else if shift == 6 {
        assert(rolled[0] == template_weight(Quality::Minor, (0 + 12 - shift) % 12));
        assert(c[0] * rolled[0] == 0);
        assert(rolled[1] == template_weight(Quality::Minor, (1 + 12 - shift) % 12));
        assert(c[1] * rolled[1] == c[1]);
        assert(rolled[2] == template_weight(Quality::Minor, (2 + 12 - shift) % 12));
        assert(c[2] * rolled[2] == 0);
        assert(rolled[3] == template_weight(Quality::Minor, (3 + 12 - shift) % 12));
        assert(c[3] * rolled[3] == 0);
        assert(rolled[4] == template_weight(Quality::Minor, (4 + 12 - shift) % 12));
        assert(c[4] * rolled[4] == 0);
        assert(rolled[5] == template_weight(Quality::Minor, (5 + 12 - shift) % 12));
        assert(c[5] * rolled[5] == 0);
        assert(rolled[6] == template_weight(Quality::Minor, (6 + 12 - shift) % 12));
        assert(c[6] * rolled[6] == c[6]);
        assert(rolled[7] == template_weight(Quality::Minor, (7 + 12 - shift) % 12));
        assert(c[7] * rolled[7] == 0);
        assert(rolled[8] == template_weight(Quality::Minor, (8 + 12 - shift) % 12));
        assert(c[8] * rolled[8] == 0);
        assert(rolled[9] == template_weight(Quality::Minor, (9 + 12 - shift) % 12));
        assert(c[9] * rolled[9] == c[9]);
        assert(rolled[10] == template_weight(Quality::Minor, (10 + 12 - shift) % 12));
        assert(c[10] * rolled[10] == 0);
        assert(rolled[11] == template_weight(Quality::Minor, (11 + 12 - shift) % 12));
        assert(c[11] * rolled[11] == 0);
        assert(dot_spec(c, rolled) == c[6] + c[9] + c[1]);
    } else if shift == 7 {
        assert(rolled[0] == template_weight(Quality::Minor, (0 + 12 - shift) % 12));
        assert(c[0] * rolled[0] == 0);
        assert(rolled[1] == template_weight(Quality::Minor, (1 + 12 - shift) % 12));
        assert(c[1] * rolled[1] == 0);
        assert(rolled[2] == template_weight(Quality::Minor, (2 + 12 - shift) % 12));
        assert(c[2] * rolled[2] == c[2]);
        assert(rolled[3] == template_weight(Quality::Minor, (3 + 12 - shift) % 12));
        assert(c[3] * rolled[3] == 0);
        assert(rolled[4] == template_weight(Quality::Minor, (4 + 12 - shift) % 12));
        assert(c[4] * rolled[4] == 0);
        assert(rolled[5] == template_weight(Quality::Minor, (5 + 12 - shift) % 12));
        assert(c[5] * rolled[5] == 0);
        assert(rolled[6] == template_weight(Quality::Minor, (6 + 12 - shift) % 12));
        assert(c[6] * rolled[6] == 0);
        assert(rolled[7] == template_weight(Quality::Minor, (7 + 12 - shift) % 12));
        assert(c[7] * rolled[7] == c[7]);
        assert(rolled[8] == template_weight(Quality::Minor, (8 + 12 - shift) % 12));
        assert(c[8] * rolled[8] == 0);
        assert(rolled[9] == template_weight(Quality::Minor, (9 + 12 - shift) % 12));
        assert(c[9] * rolled[9] == 0);
        assert(rolled[10] == template_weight(Quality::Minor, (10 + 12 - shift) % 12));
        assert(c[10] * rolled[10] == c[10]);
        assert(rolled[11] == template_weight(Quality::Minor, (11 + 12 - shift) % 12));
        assert(c[11] * rolled[11] == 0);
        assert(dot_spec(c, rolled) == c[7] + c[10] + c[2]);
    } else if shift == 8 {
        assert(rolled[0] == template_weight(Quality::Minor, (0 + 12 - shift) % 12));
        assert(c[0] * rolled[0] == 0);
        assert(rolled[1] == template_weight(Quality::Minor, (1 + 12 - shift) % 12));
        assert(c[1] * rolled[1] == 0);
        assert(rolled[2] == template_weight(Quality::Minor, (2 + 12 - shift) % 12));
        assert(c[2] * rolled[2] == 0);
        assert(rolled[3] == template_weight(Quality::Minor, (3 + 12 - shift) % 12));
        assert(c[3] * rolled[3] == c[3]);
        assert(rolled[4] == template_weight(Quality::Minor, (4 + 12 - shift) % 12));
        assert(c[4] * rolled[4] == 0);
        assert(rolled[5] == template_weight(Quality::Minor, (5 + 12 - shift) % 12));
        assert(c[5] * rolled[5] == 0);
        assert(rolled[6] == template_weight(Quality::Minor, (6 + 12 - shift) % 12));
        assert(c[6] * rolled[6] == 0);
        assert(rolled[7] == template_weight(Quality::Minor, (7 + 12 - shift) % 12));
        assert(c[7] * rolled[7] == 0);
        assert(rolled[8] == template_weight(Quality::Minor, (8 + 12 - shift) % 12));
        assert(c[8] * rolled[8] == c[8]);
        assert(rolled[9] == template_weight(Quality::Minor, (9 + 12 - shift) % 12));
        assert(c[9] * rolled[9] == 0);
        assert(rolled[10] == template_weight(Quality::Minor, (10 + 12 - shift) % 12));
        assert(c[10] * rolled[10] == 0);
        assert(rolled[11] == template_weight(Quality::Minor, (11 + 12 - shift) % 12));
        assert(c[11] * rolled[11] == c[11]);
        assert(dot_spec(c, rolled) == c[8] + c[11] + c[3]);
    } else if shift == 9 {
        assert(rolled[0] == template_weight(Quality::Minor, (0 + 12 - shift) % 12));
        assert(c[0] * rolled[0] == c[0]);
        assert(rolled[1] == template_weight(Quality::Minor, (1 + 12 - shift) % 12));
        assert(c[1] * rolled[1] == 0);
        assert(rolled[2] == template_weight(Quality::Minor, (2 + 12 - shift) % 12));
        assert(c[2] * rolled[2] == 0);
        assert(rolled[3] == template_weight(Quality::Minor, (3 + 12 - shift) % 12));
        assert(c[3] * rolled[3] == 0);
        assert(rolled[4] == template_weight(Quality::Minor, (4 + 12 - shift) % 12));
        assert(c[4] * rolled[4] == c[4]);
        assert(rolled[5] == template_weight(Quality::Minor, (5 + 12 - shift) % 12));
        assert(c[5] * rolled[5] == 0);
        assert(rolled[6] == template_weight(Quality::Minor, (6 + 12 - shift) % 12));
        assert(c[6] * rolled[6] == 0);
        assert(rolled[7] == template_weight(Quality::Minor, (7 + 12 - shift) % 12));
        assert(c[7] * rolled[7] == 0);
        assert(rolled[8] == template_weight(Quality::Minor, (8 + 12 - shift) % 12));
        assert(c[8] * rolled[8] == 0);
        assert(rolled[9] == template_weight(Quality::Minor, (9 + 12 - shift) % 12));
        assert(c[9] * rolled[9] == c[9]);
        assert(rolled[10] == template_weight(Quality::Minor, (10 + 12 - shift) % 12));
        assert(c[10] * rolled[10] == 0);
        assert(rolled[11] == template_weight(Quality::Minor, (11 + 12 - shift) % 12));
        assert(c[11] * rolled[11] == 0);
        assert(dot_spec(c, rolled) == c[9] + c[0] + c[4]);
    } else if shift == 10 {
        assert(rolled[0] == template_weight(Quality::Minor, (0 + 12 - shift) % 12));
        assert(c[0] * rolled[0] == 0);
        assert(rolled[1] == template_weight(Quality::Minor, (1 + 12 - shift) % 12));
        assert(c[1] * rolled[1] == c[1]);
        assert(rolled[2] == template_weight(Quality::Minor, (2 + 12 - shift) % 12));
        assert(c[2] * rolled[2] == 0);
        assert(rolled[3] == template_weight(Quality::Minor, (3 + 12 - shift) % 12));
        assert(c[3] * rolled[3] == 0);
        assert(rolled[4] == template_weight(Quality::Minor, (4 + 12 - shift) % 12));
        assert(c[4] * rolled[4] == 0);
        assert(rolled[5] == template_weight(Quality::Minor, (5 + 12 - shift) % 12));
        assert(c[5] * rolled[5] == c[5]);
        assert(rolled[6] == template_weight(Quality::Minor, (6 + 12 - shift) % 12));
        assert(c[6] * rolled[6] == 0);
        assert(rolled[7] == template_weight(Quality::Minor, (7 + 12 - shift) % 12));
        assert(c[7] * rolled[7] == 0);
        assert(rolled[8] == template_weight(Quality::Minor, (8 + 12 - shift) % 12));
        assert(c[8] * rolled[8] == 0);
        assert(rolled[9] == template_weight(Quality::Minor, (9 + 12 - shift) % 12));
        assert(c[9] * rolled[9] == 0);
        assert(rolled[10] == template_weight(Quality::Minor, (10 + 12 - shift) % 12));
        assert(c[10] * rolled[10] == c[10]);
        assert(rolled[11] == template_weight(Quality::Minor, (11 + 12 - shift) % 12));
        assert(c[11] * rolled[11] == 0);
        assert(dot_spec(c, rolled) == c[10] + c[1] + c[5]);
    } else {
        assert(rolled[0] == template_weight(Quality::Minor, (0 + 12 - shift) % 12));
        assert(c[0] * rolled[0] == 0);
        assert(rolled[1] == template_weight(Quality::Minor, (1 + 12 - shift) % 12));
        assert(c[1] * rolled[1] == 0);
        assert(rolled[2] == template_weight(Quality::Minor, (2 + 12 - shift) % 12));
        assert(c[2] * rolled[2] == c[2]);
        assert(rolled[3] == template_weight(Quality::Minor, (3 + 12 - shift) % 12));
        assert(c[3] * rolled[3] == 0);
        assert(rolled[4] == template_weight(Quality::Minor, (4 + 12 - shift) % 12));
        assert(c[4] * rolled[4] == 0);
        assert(rolled[5] == template_weight(Quality::Minor, (5 + 12 - shift) % 12));
        assert(c[5] * rolled[5] == 0);
        assert(rolled[6] == template_weight(Quality::Minor, (6 + 12 - shift) % 12));
        assert(c[6] * rolled[6] == c[6]);
        assert(rolled[7] == template_weight(Quality::Minor, (7 + 12 - shift) % 12));
        assert(c[7] * rolled[7] == 0);
        assert(rolled[8] == template_weight(Quality::Minor, (8 + 12 - shift) % 12));
        assert(c[8] * rolled[8] == 0);
        assert(rolled[9] == template_weight(Quality::Minor, (9 + 12 - shift) % 12));
        assert(c[9] * rolled[9] == 0);
        assert(rolled[10] == template_weight(Quality::Minor, (10 + 12 - shift) % 12));
        assert(c[10] * rolled[10] == 0);
        assert(rolled[11] == template_weight(Quality::Minor, (11 + 12 - shift) % 12));
        assert(c[11] * rolled[11] == c[11]);
        assert(dot_spec(c, rolled) == c[11] + c[2] + c[6]);
    }
}


/// Relates the dot product of the chroma profile with one rotated template
/// to the score of the corresponding hypothesis.
pub proof fn lemma_rolled_score(
    chroma: Seq<u64>,
    t: Seq<u64>,
    rolled: Seq<u64>,
    root: int,
    q: Quality,
)
    requires
        chroma.len() == 12,
        t.len() == 12,
        rolled.len() == 12,
        0 <= root < 12,
        forall|i: int| 0 <= i < 12 ==> t[i] == template_weight(q, i),
        forall|j: int| 0 <= j < 12 ==> #[trigger] rolled[j] == t[(j + 12 - root) % 12],
    ensures
        dot_spec(chroma, rolled) == score_spec(to_ints(chroma), root, q),
        forall|j: int| 0 <= j < 12 ==> #[trigger] rolled[j] <= 1,
{
    assert forall|j: int| 0 <= j < 12 implies #[trigger] rolled[j] == template_weight(
        q,
        (j + 12 - root) % 12,
    ) && rolled[j] <= 1 by {
        assert(rolled[j] == t[(j + 12 - root) % 12]);
    }
    if q == Quality::Major {
        lemma_dot_rolled_major(chroma, rolled, root);
    } else {
        lemma_dot_rolled_minor(chroma, rolled, root);
    }
}

/// Root pitch class of the h-th hypothesis in evaluation order: roots
/// ascend, and at each root major comes before minor.
pub open spec fn hyp_root(h: int) -> int {
    h / 2
}

/// Quality of the h-th hypothesis in evaluation order.
pub open spec fn hyp_quality(h: int) -> Quality {
    if h % 2 == 0 {
        Quality::Major
    } else {
        Quality::Minor
    }
}

/// Position of the hypothesis (root, quality) in evaluation order.
pub open spec fn hyp_index(root: int, q: Quality) -> int {
    2 * root + (if q == Quality::Minor { 1int } else { 0int })
}

/// Score of the h-th hypothesis against a chroma profile.
pub open spec fn hyp_score(c: Seq<int>, h: int) -> int {
    score_spec(c, hyp_root(h), hyp_quality(h))
}

/// Best score and best label after evaluating the first `h` hypotheses,
/// starting from score 0 and Unknown, and replacing the leader only on a
/// strictly greater score.
pub open spec fn best_upto(c: Seq<int>, h: int) -> (int, ChordResult)
    decreases h,
{
    if h <= 0 {
        (0int, ChordResult::Unknown)
    } else {
        let prev = best_upto(c, h - 1);
        if hyp_score(c, h - 1) > prev.0 {
            (
                hyp_score(c, h - 1),
                ChordResult::Chord { root: hyp_root(h - 1) as usize, quality: hyp_quality(h - 1) },
            )
        } else {
            prev
        }
    }
}

/// The chord reported for a chroma profile: the first hypothesis to reach
/// the best of the 24 scores, or Unknown when that best does not strictly
/// exceed the confidence threshold.
pub open spec fn chord_match_spec(c: Seq<int>) -> ChordResult {
    if best_upto(c, 24).0 > THRESHOLD {
        best_upto(c, 24).1
    } else {
        ChordResult::Unknown
    }
}

/// What the running best means after `h` hypotheses: it is the largest
/// score seen so far; it is 0 while no hypothesis has beaten 0; and when a
/// chord leads, that chord is the first hypothesis to have reached the
/// leading score.
pub proof fn lemma_best_upto(c: Seq<int>, h: int)
    requires
        0 <= h <= 24,
    ensures
        best_upto(c, h).0 >= 0,
        forall|j: int| 0 <= j < h ==> hyp_score(c, j) <= best_upto(c, h).0,
        best_upto(c, h).1 == ChordResult::Unknown ==> best_upto(c, h).0 == 0,
        best_upto(c, h).1 matches ChordResult::Chord { root, quality } ==> {
            &&& 0 <= hyp_index(root as int, quality) < h
            &&& root < 12
            &&& hyp_score(c, hyp_index(root as int, quality)) == best_upto(c, h).0
            &&& best_upto(c, h).0 > 0
            &&& forall|j: int|
                0 <= j < hyp_index(root as int, quality) ==> hyp_score(c, j) < best_upto(c, h).0
        },
    decreases h,
{
    if h > 0 {
        lemma_best_upto(c, h - 1);
        let prev = best_upto(c, h - 1);
        if hyp_score(c, h - 1) > prev.0 {
            assert(hyp_index(hyp_root(h - 1), hyp_quality(h - 1)) == h - 1);
        }
    }
}

/// Score the chroma profile against the major and minor templates rotated
/// to every root and report the best chord, or Unknown when no score
/// strictly exceeds the confidence threshold.
#[verifier::rlimit(100)]
pub fn match_chord(chroma: &Vec<u64>) -> (r: ChordResult)
    requires
        chroma@.len() == 12,
        forall|i: int| 0 <= i < 12 ==> chroma@[i] <= SCALE,
    ensures
        r == chord_match_spec(to_ints(chroma@)),
        (r == ChordResult::Unknown <==> forall|root: int, q: Quality|
            0 <= root < 12 ==> score_spec(to_ints(chroma@), root, q) <= THRESHOLD),
        r matches ChordResult::Chord { root, quality } ==> {
            &&& root < 12
            &&& score_spec(to_ints(chroma@), root as int, quality) > THRESHOLD
            &&& forall|root2: int, q2: Quality| 0 <= root2 < 12 ==>
                score_spec(to_ints(chroma@), root2, q2)
                    <= score_spec(to_ints(chroma@), root as int, quality)
            &&& forall|root2: int, q2: Quality|
                0 <= root2 < 12 && hyp_index(root2, q2) < hyp_index(root as int, quality)
                    ==> score_spec(to_ints(chroma@), root2, q2)
                        < score_spec(to_ints(chroma@), root as int, quality)
        },
{
    let ghost c = to_ints(chroma@);
    let mut best_score: u64 = 0;
    let mut best: ChordResult = ChordResult::Unknown;
    let mut h: usize = 0;
    while h < 24
        invariant
            h <= 24,
            chroma@.len() == 12,
            forall|i: int| 0 <= i < 12 ==> chroma@[i] <= SCALE,
            c == to_ints(chroma@),
            best_score as int == best_upto(c, h as int).0,
            best == best_upto(c, h as int).1,
        decreases 24 - h,
    {
        let root = h / 2;
        let quality = if h % 2 == 0 {
            Quality::Major
        } else {
            Quality::Minor
        };
        let t = base_template(quality);
        let rolled = roll_template(&t, root);
        proof {
            lemma_rolled_score(chroma@, t@, rolled@, root as int, quality);
        }
        let score = dot(chroma, &rolled);
        proof {
            assert(root as int == hyp_root(h as int));
            assert(quality == hyp_quality(h as int));
            assert(score == hyp_score(c, h as int));
        }
        if score > best_score {
            best_score = score;
            best = ChordResult::Chord { root, quality };
        }
        h = h + 1;
    }
    proof {
        lemma_best_upto(c, 24);
        assert forall|root2: int, q2: Quality| 0 <= root2 < 12 implies #[trigger] score_spec(
            c,
            root2,
            q2,
        ) <= best_upto(c, 24).0 by {
            assert(hyp_root(hyp_index(root2, q2)) == root2);
            assert(hyp_quality(hyp_index(root2, q2)) == q2);
            assert(hyp_score(c, hyp_index(root2, q2)) == score_spec(c, root2, q2));
        }
        match best {
            ChordResult::Chord { root: br, quality: bq } => {
                let idx = hyp_index(br as int, bq);
                assert(hyp_root(idx) == br as int);
                assert(hyp_quality(idx) == bq);
                assert(score_spec(c, br as int, bq) == hyp_score(c, idx));
                assert(score_spec(c, br as int, bq) == best_upto(c, 24).0);
                assert forall|root2: int, q2: Quality|
                    0 <= root2 < 12 && hyp_index(root2, q2) < idx implies score_spec(c, root2, q2)
                        < best_upto(c, 24).0 by {
                    assert(hyp_root(hyp_index(root2, q2)) == root2);
                    assert(hyp_quality(hyp_index(root2, q2)) == q2);
                    assert(hyp_score(c, hyp_index(root2, q2)) == score_spec(c, root2, q2));
                }
            },
            ChordResult::Unknown => {},
        }
    }
    if best_score > THRESHOLD {
        best
    } else {
        ChordResult::Unknown
    }
}

/// Canonical name of a pitch class, sharps only: 0 = C, ..., 11 = B.
pub open spec fn note_name_spec(pc: int) -> Seq<char> {
    if pc == 0 { "C"@ } else
    if pc == 1 { "C#"@ } else
    if pc == 2 { "D"@ } else
    if pc == 3 { "D#"@ } else
    if pc == 4 { "E"@ } else
    if pc == 5 { "F"@ } else
    if pc == 6 { "F#"@ } else
    if pc == 7 { "G"@ } else
    if pc == 8 { "G#"@ } else
    if pc == 9 { "A"@ } else
    if pc == 10 { "A#"@ } else
    if pc == 11 { "B"@ } else
    { "B"@ }
}

/// Canonical name of a pitch class, sharps only.
pub fn note_name(pc: usize) -> (name: &'static str)
    requires
        pc < 12,
    ensures
        name@ == note_name_spec(pc as int),
{
    match pc {
        0 => "C",
        1 => "C#",
        2 => "D",
        3 => "D#",
        4 => "E",
        5 => "F",
        6 => "F#",
        7 => "G",
        8 => "G#",
        9 => "A",
        10 => "A#",
        _ => "B",
    }
}

/// The text of a chord result: "<Note> major", "<Note> minor", or
/// "Unknown".
pub open spec fn label_spec(r: ChordResult) -> Seq<char> {
    match r {
        ChordResult::Unknown => "Unknown"@,
        ChordResult::Chord { root, quality } =>
        if root == 0 && quality == Quality::Major { "C major"@ } else
        if root == 1 && quality == Quality::Major { "C# major"@ } else
        if root == 2 && quality == Quality::Major { "D major"@ } else
        if root == 3 && quality == Quality::Major { "D# major"@ } else
        if root == 4 && quality == Quality::Major { "E major"@ } else
        if root == 5 && quality == Quality::Major { "F major"@ } else
        if root == 6 && quality == Quality::Major { "F# major"@ } else
        if root == 7 && quality == Quality::Major { "G major"@ } else
        if root == 8 && quality == Quality::Major { "G# major"@ } else
        if root == 9 && quality == Quality::Major { "A major"@ } else
        if root == 10 && quality == Quality::Major { "A# major"@ } else
        if root == 11 && quality == Quality::Major { "B major"@ } else
        if root == 0 && quality == Quality::Minor { "C minor"@ } else
        if root == 1 && quality == Quality::Minor { "C# minor"@ } else
        if root == 2 && quality == Quality::Minor { "D minor"@ } else
        if root == 3 && quality == Quality::Minor { "D# minor"@ } else
        if root == 4 && quality == Quality::Minor { "E minor"@ } else
        if root == 5 && quality == Quality::Minor { "F minor"@ } else
        if root == 6 && quality == Quality::Minor { "F# minor"@ } else
        if root == 7 && quality == Quality::Minor { "G minor"@ } else
        if root == 8 && quality == Quality::Minor { "G# minor"@ } else
        if root == 9 && quality == Quality::Minor { "A minor"@ } else
        if root == 10 && quality == Quality::Minor { "A# minor"@ } else
        if root == 11 && quality == Quality::Minor { "B minor"@ } else
        { "Unknown"@ },
    }
}

impl ChordResult {
    /// The chord as text: "<Note> major", "<Note> minor", or "Unknown".
    pub fn label(&self) -> (s: &'static str)
        ensures
            s@ == label_spec(*self),
    {
        match *self {
            ChordResult::Unknown => "Unknown",
            ChordResult::Chord { root, quality } => match (quality, root) {
                (Quality::Major, 0) => "C major",
                (Quality::Major, 1) => "C# major",
                (Quality::Major, 2) => "D major",
                (Quality::Major, 3) => "D# major",
                (Quality::Major, 4) => "E major",
                (Quality::Major, 5) => "F major",
                (Quality::Major, 6) => "F# major",
                (Quality::Major, 7) => "G major",
                (Quality::Major, 8) => "G# major",
                (Quality::Major, 9) => "A major",
                (Quality::Major, 10) => "A# major",
                (Quality::Major, 11) => "B major",
                (Quality::Minor, 0) => "C minor",
                (Quality::Minor, 1) => "C# minor",
                (Quality::Minor, 2) => "D minor",
                (Quality::Minor, 3) => "D# minor",
                (Quality::Minor, 4) => "E minor",
                (Quality::Minor, 5) => "F minor",
                (Quality::Minor, 6) => "F# minor",
                (Quality::Minor, 7) => "G minor",
                (Quality::Minor, 8) => "G# minor",
                (Quality::Minor, 9) => "A minor",
                (Quality::Minor, 10) => "A# minor",
                (Quality::Minor, 11) => "B minor",
                _ => "Unknown",
            },
        }
    }
}


/// An all-zero chroma profile scores zero on every hypothesis, so no chord
/// is reported.
pub proof fn lemma_zero_chroma_unknown(c: Seq<int>)
    requires
        c.len() == 12,
        forall|i: int| 0 <= i < 12 ==> c[i] == 0,
    ensures
        chord_match_spec(c) == ChordResult::Unknown,
{
    lemma_best_upto(c, 24);
    assert forall|h: int| 0 <= h < 24 implies hyp_score(c, h) == 0 by {
        let root = hyp_root(h);
        assert(0 <= root < 12);
        assert(0 <= root % 12 < 12);
        assert(0 <= (root + third_offset(hyp_quality(h))) % 12 < 12);
        assert(0 <= (root + 7) % 12 < 12);
    }
    match best_upto(c, 24).1 {
        ChordResult::Chord { root, quality } => {
            assert(hyp_score(c, hyp_index(root as int, quality)) == best_upto(c, 24).0);
            assert(best_upto(c, 24).0 == 0);
        },
        ChordResult::Unknown => {},
    }
}

/// Tie-break law: when the major and minor hypotheses at one root tie for
/// the single best score and that score clears the threshold, the major
/// chord is reported, because major is evaluated first at each root.
pub proof fn lemma_major_minor_tie_break(c: Seq<int>, root: int)
    requires
        0 <= root < 12,
        score_spec(c, root, Quality::Major) == score_spec(c, root, Quality::Minor),
        score_spec(c, root, Quality::Major) > THRESHOLD,
        forall|r2: int, q2: Quality| 0 <= r2 < 12 && r2 != root ==>
            #[trigger] score_spec(c, r2, q2) < score_spec(c, root, Quality::Major),
    ensures
        chord_match_spec(c) == (ChordResult::Chord { root: root as usize, quality: Quality::Major }),
{
    lemma_best_upto(c, 24);
    let s = score_spec(c, root, Quality::Major);
    let best = best_upto(c, 24);
    assert(hyp_root(2 * root) == root);
    assert(hyp_quality(2 * root) == Quality::Major);
    assert(hyp_score(c, 2 * root) == s);
    assert(hyp_root(2 * root + 1) == root);
    assert(hyp_quality(2 * root + 1) == Quality::Minor);
    assert(hyp_score(c, 2 * root + 1) == s);
    assert(s <= best.0);
    match best.1 {
        ChordResult::Unknown => {
            assert(best.0 == 0);
            assert(false);
        },
        ChordResult::Chord { root: br, quality: bq } => {
            let idx = hyp_index(br as int, bq);
            assert(hyp_root(idx) == br as int);
            assert(hyp_quality(idx) == bq);
            assert(hyp_score(c, idx) == score_spec(c, br as int, bq));
            assert(score_spec(c, br as int, bq) == best.0);
            if br as int != root {
                assert(score_spec(c, br as int, bq) < s);
                assert(false);
            }
            if bq == Quality::Minor {
                assert(idx == 2 * root + 1);
                assert(hyp_score(c, 2 * root) < best.0);
                assert(false);
            }
            assert(best.0 == s);
            assert(best.0 > THRESHOLD);
        },
    }
}

/// Rotation law: a chroma profile that is exactly the major template
/// rotated to root r is matched as that major chord, with the maximal
/// score of three times SCALE.
#[verifier::rlimit(100)]
pub proof fn lemma_rotation_symmetry(c: Seq<int>, r: int)
    requires
        0 <= r < 12,
        c.len() == 12,
        forall|j: int| 0 <= j < 12 ==> c[j] == (if j == r || j == (r + 4) % 12 || j == (r + 7) % 12
            { SCALE as int } else { 0 }),
    ensures
        score_spec(c, r, Quality::Major) == 3 * SCALE,
        chord_match_spec(c) == (ChordResult::Chord { root: r as usize, quality: Quality::Major }),
{
    lemma_best_upto(c, 24);
    let s = score_spec(c, r, Quality::Major);
    assert((r + 4) % 12 != r && (r + 7) % 12 != r && (r + 4) % 12 != (r + 7) % 12);
    assert(c[r % 12] == SCALE);
    assert(s == 3 * SCALE);
    assert forall|r2: int, q2: Quality| 0 <= r2 < 12 && !(r2 == r && q2 == Quality::Major)
        implies #[trigger] score_spec(c, r2, q2) < 3 * SCALE by {
        let o = third_offset(q2);
        let a = r2 % 12;
        let b = (r2 + o) % 12;
        let d = (r2 + 7) % 12;
        assert(0 <= a < 12 && 0 <= b < 12 && 0 <= d < 12);
        assert(c[a] <= SCALE && c[b] <= SCALE && c[d] <= SCALE);
        if c[a] == SCALE && c[b] == SCALE && c[d] == SCALE {
            assert(false);
        }
    }
    let best = best_upto(c, 24);
    assert(hyp_root(2 * r) == r);
    assert(hyp_quality(2 * r) == Quality::Major);
    assert(hyp_score(c, 2 * r) == s);
    assert(s <= best.0);
    match best.1 {
        ChordResult::Unknown => {
            assert(best.0 == 0);
            assert(false);
        },
        ChordResult::Chord { root: br, quality: bq } => {
            let idx = hyp_index(br as int, bq);
            assert(hyp_root(idx) == br as int);
            assert(hyp_quality(idx) == bq);
            assert(hyp_score(c, idx) == score_spec(c, br as int, bq));
            assert(score_spec(c, br as int, bq) == best.0);
            if !(br as int == r && bq == Quality::Major) {
                assert(score_spec(c, br as int, bq) < 3 * SCALE);
                assert(false);
            }
            assert(best.0 == s);
            assert(best.0 > THRESHOLD);
        },
    }
}

} // verus!
