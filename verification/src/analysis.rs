//! One-shot analysis of a signal batch: the initial unit-time estimate
//! and the gap clustering thresholds.
//!
//! The dot duration is found by classifying tone lengths against a
//! fifteen-words-per-minute prior, refining the split at the widest
//! gap between consecutive sorted durations, and taking the median of
//! the dot cluster. Gap thresholds come from the two widest gaps
//! between consecutive sorted silence durations.

use vstd::prelude::*;
use vstd::string::StringExecFns;
use crate::model::GapClusters;
use crate::model::MAX_DURATION_US;
use crate::model::NOISE_THRESHOLD_US;
use crate::sorting::ascending;
use crate::sorting::lemma_ascending_ensures;
use crate::sorting::sort_durations;
use crate::types::MorseSignal;

verus! {

/// Tone durations at most this long count as dots under the prior
/// (the midpoint of the expected dot and dash lengths at fifteen words
/// per minute: 80 and 240 milliseconds).
pub const PRIOR_SPLIT_US: u64 = 160_000;

/// The expected dot length under the prior, used when no tone ever
/// looks like a dot.
pub const PRIOR_DOT_US: u64 = 80_000;

/// Upper edge of the plausible range for a refined dot/dash split: one
/// and a half times the expected dash length under the prior.
pub const PRIOR_SPLIT_MAX_US: u64 = 360_000;

/// Median of a sequence that is already in ascending order; for even
/// lengths, the mean of the two middle elements.
pub open spec fn spec_median_sorted(s: Seq<u64>) -> int
    recommends
        s.len() >= 1,
{
    let n = s.len() as int;
    if n % 2 == 0 {
        (s[n / 2 - 1] + s[n / 2]) / 2
    } else {
        s[n / 2] as int
    }
}

/// The predicate "at most `thr`", shared between the specification and
/// the filtering loop.
pub open spec fn le_pred(thr: int) -> spec_fn(u64) -> bool {
    |d: u64| d <= thr
}

/// Timing statistics of a duration sample.
#[derive(Clone, Copy, PartialEq, Eq, Structural, Debug)]
pub struct TimingStats {
    /// The median duration, in microseconds.
    pub median: u64,
}

impl TimingStats {
    /// The median of the sample, or nothing for an empty sample.
    pub fn new(values: &Vec<u64>) -> (r: Option<TimingStats>)
        requires
            forall|i: int| 0 <= i < values@.len() ==> #[trigger] values@[i] <= MAX_DURATION_US,
        ensures
            (r is Some) <==> values@.len() > 0,
            r matches Some(st) ==> st.median == spec_median_sorted(ascending(values@)),
    {
        if values.len() == 0 {
            return None;
        }
        proof {
            lemma_ascending_ensures(values@);
            lemma_ascending_le(values@, MAX_DURATION_US);
        }
        let sorted = sort_durations(values);
        let len = sorted.len();
        let median: u64 = if len % 2 == 0 {
            (sorted[len / 2 - 1] + sorted[len / 2]) / 2
        } else {
            sorted[len / 2]
        };
        Some(TimingStats { median })
    }
}

/// Elements of the ascending rearrangement inherit an upper bound from
/// the sample.
pub proof fn lemma_ascending_le(s: Seq<u64>, hi: u64)
    requires
        forall|i: int| 0 <= i < s.len() ==> #[trigger] s[i] <= hi,
    ensures
        forall|i: int| 0 <= i < ascending(s).len() ==> #[trigger] ascending(s)[i] <= hi,
{
    s.lemma_sort_by_ensures(crate::sorting::leq_u64());
    lemma_ascending_ensures(s);
    assert forall|i: int| 0 <= i < ascending(s).len() implies #[trigger] ascending(s)[i] <= hi by {
        let x = ascending(s)[i];
        assert(ascending(s).contains(x));
        assert(s.contains(x));
        let j = choose|j: int| 0 <= j < s.len() && s[j] == x;
        assert(s[j] <= hi);
    }
}

/// Elements of the ascending rearrangement inherit a lower bound from
/// the sample.
pub proof fn lemma_ascending_ge(s: Seq<u64>, lo: u64)
    requires
        forall|i: int| 0 <= i < s.len() ==> #[trigger] s[i] >= lo,
    ensures
        forall|i: int| 0 <= i < ascending(s).len() ==> #[trigger] ascending(s)[i] >= lo,
{
    s.lemma_sort_by_ensures(crate::sorting::leq_u64());
    lemma_ascending_ensures(s);
    assert forall|i: int| 0 <= i < ascending(s).len() implies #[trigger] ascending(s)[i] >= lo by {
        let x = ascending(s)[i];
        assert(ascending(s).contains(x));
        assert(s.contains(x));
        let j = choose|j: int| 0 <= j < s.len() && s[j] == x;
        assert(s[j] >= lo);
    }
}

/// Scan the consecutive gaps of a sorted sequence from index `i`,
/// returning the refined split: each time a gap wider than every
/// earlier one appears, its midpoint becomes the candidate split if it
/// lies in the plausible range.
pub open spec fn spec_split_scan(s: Seq<u64>, i: int, max_gap: int, best: int) -> int
    decreases s.len() - i,
{
    if i < 0 || i + 1 >= s.len() {
        best
    } else {
        let gap = s[i + 1] - s[i];
        if gap > max_gap {
            let pot = (s[i] + s[i + 1]) / 2;
            let nb = if PRIOR_DOT_US / 2 < pot < PRIOR_SPLIT_MAX_US {
                pot
            } else {
                best
            };
            spec_split_scan(s, i + 1, gap, nb)
        } else {
            spec_split_scan(s, i + 1, max_gap, best)
        }
    }
}

/// The unit time implied by a batch of tone durations: the median of
/// the dot cluster, where the dot/dash split starts at the prior and is
/// refined at the widest gap of the sorted durations; the prior dot if
/// the cluster is empty.
pub open spec fn spec_find_dot(s: Seq<u64>) -> int {
    let sorted = ascending(s);
    let has_dot = exists|j: int| 0 <= j < s.len() && #[trigger] s[j] <= PRIOR_SPLIT_US;
    let has_dash = exists|j: int| 0 <= j < s.len() && #[trigger] s[j] > PRIOR_SPLIT_US;
    let thr = if has_dot && has_dash {
        spec_split_scan(sorted, 0, 0, PRIOR_SPLIT_US as int)
    } else {
        PRIOR_SPLIT_US as int
    };
    let cands = sorted.filter(le_pred(thr));
    if cands.len() > 0 {
        spec_median_sorted(cands)
    } else {
        PRIOR_DOT_US as int
    }
}

/// Find the unit time of a batch of tone durations.
pub fn find_dot_duration(on_durations: &Vec<u64>) -> (r: u64)
    requires
        on_durations@.len() >= 1,
        forall|i: int|
            0 <= i < on_durations@.len() ==> NOISE_THRESHOLD_US <= #[trigger] on_durations@[i]
                <= MAX_DURATION_US,
    ensures
        r == spec_find_dot(on_durations@),
        1 <= r <= MAX_DURATION_US,
{
    let ghost s = on_durations@;
    proof {
        lemma_ascending_ensures(s);
        lemma_ascending_le(s, MAX_DURATION_US);
        lemma_ascending_ge(s, NOISE_THRESHOLD_US);
    }
    let sorted = sort_durations(on_durations);

    // Does the prior classify anything as a dot, and anything as a
    // dash?
    let mut has_dot = false;
    let mut has_dash = false;
    let mut k: usize = 0;
    while k < on_durations.len()
        invariant
            s == on_durations@,
            k <= s.len(),
            has_dot <==> exists|j: int| 0 <= j < k && #[trigger] s[j] <= PRIOR_SPLIT_US,
            has_dash <==> exists|j: int| 0 <= j < k && #[trigger] s[j] > PRIOR_SPLIT_US,
        decreases s.len() - k,
    {
        if on_durations[k] <= PRIOR_SPLIT_US {
            has_dot = true;
        } else {
            has_dash = true;
        }
        k = k + 1;
    }

    // Refine the split at the widest gap of the sorted durations.
    let thr: u64 = if has_dot && has_dash {
        let mut best: u64 = PRIOR_SPLIT_US;
        let mut max_gap: u64 = 0;
        let mut i: usize = 0;
        while i < sorted.len() - 1
            invariant
                sorted@.len() >= 1,
                sorted@ == ascending(s),
                forall|a: int, b: int|
                    0 <= a <= b < sorted@.len() ==> #[trigger] sorted@[a] <= #[trigger] sorted@[b],
                forall|a: int|
                    0 <= a < sorted@.len() ==> NOISE_THRESHOLD_US <= #[trigger] sorted@[a]
                        <= MAX_DURATION_US,
                i <= sorted@.len(),
                best <= 360_000,
                spec_split_scan(sorted@, i as int, max_gap as int, best as int) == spec_split_scan(
                    sorted@,
                    0,
                    0,
                    PRIOR_SPLIT_US as int,
                ),
            decreases sorted@.len() - i,
    {
            let gap = sorted[i + 1] - sorted[i];
            if gap > max_gap {
                max_gap = gap;
                let pot = (sorted[i] + sorted[i + 1]) / 2;
                if PRIOR_DOT_US / 2 < pot && pot < PRIOR_SPLIT_MAX_US {
                    best = pot;
                }
            }
            i = i + 1;
        }
        best
    } else {
        PRIOR_SPLIT_US
    };

    // Collect the dot cluster and take its median.
    let mut cands: Vec<u64> = Vec::new();
    let mut k2: usize = 0;
    while k2 < sorted.len()
        invariant
            sorted@ == ascending(s),
            thr <= 360_000,
            forall|a: int|
                0 <= a < sorted@.len() ==> NOISE_THRESHOLD_US <= #[trigger] sorted@[a]
                    <= MAX_DURATION_US,
            k2 <= sorted@.len(),
            cands@ == sorted@.take(k2 as int).filter(le_pred(thr as int)),
            forall|q: int|
                0 <= q < cands@.len() ==> NOISE_THRESHOLD_US <= #[trigger] cands@[q] <= thr,
        decreases sorted@.len() - k2,
    {
        let ghost prev = cands@;
        let ghost taken = sorted@.take(k2 as int);
        if sorted[k2] <= thr {
            cands.push(sorted[k2]);
        }
        proof {
            assert(sorted@.take(k2 as int + 1) =~= taken.push(sorted@[k2 as int]));
            taken.lemma_filter_push(sorted@[k2 as int], le_pred(thr as int));
        }
        k2 = k2 + 1;
    }
    proof {
        assert(sorted@.take(sorted@.len() as int) =~= sorted@);
    }

    if cands.len() > 0 {
        let len = cands.len();
        if len % 2 == 0 {
            (cands[len / 2 - 1] + cands[len / 2]) / 2
        } else {
            cands[len / 2]
        }
    } else {
        PRIOR_DOT_US
    }
}

/// Scan the consecutive gaps of a sorted sequence for the first index
/// (other than `skip`) whose gap is wider than every other; `skip` set
/// to the length scans all indices.
pub open spec fn spec_argmax_scan(s: Seq<u64>, i: int, skip: int, besti: int, bestg: int) -> int
    decreases s.len() - i,
{
    if i < 0 || i + 1 >= s.len() {
        besti
    } else if i != skip && s[i + 1] - s[i] > bestg {
        spec_argmax_scan(s, i + 1, skip, i, s[i + 1] - s[i])
    } else {
        spec_argmax_scan(s, i + 1, skip, besti, bestg)
    }
}

/// The first index (other than `skip`) whose gap to the next element
/// is positive and wider than every other; -1 when every eligible gap
/// is zero, that is, when no such natural breakpoint exists.
pub open spec fn spec_argmax_diff(s: Seq<u64>, skip: int) -> int {
    spec_argmax_scan(s, 0, skip, -1, 0)
}

/// Find the first index (other than `skip`) of the widest positive
/// gap between consecutive elements of a sorted sample, if any gap is
/// positive at all.
fn argmax_diff(sorted: &Vec<u64>, skip: usize) -> (r: Option<usize>)
    requires
        sorted@.len() >= 3,
        skip == sorted@.len() || skip < sorted@.len() - 1,
        forall|a: int, b: int|
            0 <= a <= b < sorted@.len() ==> #[trigger] sorted@[a] <= #[trigger] sorted@[b],
        forall|a: int| 0 <= a < sorted@.len() ==> #[trigger] sorted@[a] <= MAX_DURATION_US,
    ensures
        match r {
            Some(idx) => idx == spec_argmax_diff(sorted@, skip as int) && idx < sorted@.len() - 1
                && idx != skip,
            None => spec_argmax_diff(sorted@, skip as int) == -1,
        },
{
    let mut besti: usize = 0;
    let mut found = false;
    let mut bestg: u64 = 0;
    let mut i: usize = 0;
    while i < sorted.len() - 1
        invariant
            sorted@.len() >= 3,
            skip == sorted@.len() || skip < sorted@.len() - 1,
            forall|a: int, b: int|
                0 <= a <= b < sorted@.len() ==> #[trigger] sorted@[a] <= #[trigger] sorted@[b],
            forall|a: int| 0 <= a < sorted@.len() ==> #[trigger] sorted@[a] <= MAX_DURATION_US,
            i <= sorted@.len(),
            spec_argmax_scan(
                sorted@,
                i as int,
                skip as int,
                if found {
                    besti as int
                } else {
                    -1
                },
                bestg as int,
            ) == spec_argmax_diff(sorted@, skip as int),
            !found ==> bestg == 0,
            found ==> besti < sorted@.len() - 1 && besti != skip && bestg == sorted@[besti + 1]
                - sorted@[besti as int] && bestg > 0,
        decreases sorted@.len() - i,
    {
        let gap = sorted[i + 1] - sorted[i];
        if i != skip && gap > bestg {
            besti = i;
            bestg = gap;
            found = true;
        }
        i = i + 1;
    }
    if found {
        Some(besti)
    } else {
        None
    }
}

/// The lower clustering threshold: the midpoint straddling the
/// lower-index of the two widest positive gaps of the sorted silence
/// durations; a scaled median when the sample is too small to cluster,
/// and a ratio of the unit time when no positive gap exists at all.
pub open spec fn spec_cluster_intra(s: Seq<u64>, dot: u64) -> int {
    let sorted = ascending(s);
    if s.len() == 0 {
        dot * 2
    } else if s.len() < 3 {
        spec_median_sorted(sorted) * 7 / 10
    } else {
        let i1 = spec_argmax_diff(sorted, s.len() as int);
        if i1 == -1 {
            dot * 3 / 2
        } else {
            let i2 = spec_argmax_diff(sorted, i1);
            let b0 = if i2 == -1 || i1 < i2 {
                i1
            } else {
                i2
            };
            (sorted[b0] + sorted[b0 + 1]) / 2
        }
    }
}

/// The upper clustering threshold: the midpoint straddling the
/// higher-index of the two widest positive gaps; when fewer than two
/// positive gaps exist, two and a half times the lower threshold.
pub open spec fn spec_cluster_word(s: Seq<u64>, dot: u64) -> int {
    let sorted = ascending(s);
    if s.len() == 0 {
        dot * 5
    } else if s.len() < 3 {
        spec_median_sorted(sorted) * 3 / 2
    } else {
        let i1 = spec_argmax_diff(sorted, s.len() as int);
        if i1 == -1 {
            (dot * 3 / 2) * 5 / 2
        } else {
            let i2 = spec_argmax_diff(sorted, i1);
            if i2 == -1 {
                ((sorted[i1] + sorted[i1 + 1]) / 2) * 5 / 2
            } else {
                let b1 = if i1 < i2 {
                    i2
                } else {
                    i1
                };
                (sorted[b1] + sorted[b1 + 1]) / 2
            }
        }
    }
}

/// Cluster silence durations into the two thresholds that separate
/// intra-character, inter-character and word gaps: the two widest
/// positive gaps of the sorted sample are the natural boundaries, and
/// ratio-based fallbacks cover samples that are too small or too
/// uniform to cluster.
pub fn cluster_gap_durations(off_durations: &Vec<u64>, dot_duration: u64) -> (c: GapClusters)
    requires
        forall|i: int|
            0 <= i < off_durations@.len() ==> NOISE_THRESHOLD_US <= #[trigger] off_durations@[i]
                <= MAX_DURATION_US,
        1 <= dot_duration <= MAX_DURATION_US,
    ensures
        c.wf(),
        c.intra_to_inter_threshold == spec_cluster_intra(off_durations@, dot_duration),
        c.inter_to_word_threshold == spec_cluster_word(off_durations@, dot_duration),
{
    let ghost s = off_durations@;
    if off_durations.len() == 0 {
        return GapClusters {
            intra_to_inter_threshold: dot_duration * 2,
            inter_to_word_threshold: dot_duration * 5,
        };
    }
    proof {
        lemma_ascending_ensures(s);
        lemma_ascending_le(s, MAX_DURATION_US);
        lemma_ascending_ge(s, NOISE_THRESHOLD_US);
    }
    let sorted = sort_durations(off_durations);
    if sorted.len() < 3 {
        let len = sorted.len();
        let med: u64 = if len % 2 == 0 {
            (sorted[len / 2 - 1] + sorted[len / 2]) / 2
        } else {
            sorted[len / 2]
        };
        proof {
            vstd::arithmetic::div_mod::lemma_div_is_ordered(
                (med as int) * 7,
                (med as int) * 10,
                10,
            );
            vstd::arithmetic::div_mod::lemma_div_multiples_vanish(med as int, 10);
            vstd::arithmetic::div_mod::lemma_div_is_ordered(
                (med as int) * 2,
                (med as int) * 3,
                2,
            );
            vstd::arithmetic::div_mod::lemma_div_multiples_vanish(med as int, 2);
        }
        return GapClusters {
            intra_to_inter_threshold: med * 7 / 10,
            inter_to_word_threshold: med * 3 / 2,
        };
    }
    match argmax_diff(&sorted, sorted.len()) {
        None => GapClusters {
            intra_to_inter_threshold: dot_duration * 3 / 2,
            inter_to_word_threshold: (dot_duration * 3 / 2) * 5 / 2,
        },
        Some(i1) => {
            match argmax_diff(&sorted, i1) {
                None => {
                    let intra = (sorted[i1] + sorted[i1 + 1]) / 2;
                    GapClusters {
                        intra_to_inter_threshold: intra,
                        inter_to_word_threshold: intra * 5 / 2,
                    }
                },
                Some(i2) => {
                    let b0 = if i1 < i2 {
                        i1
                    } else {
                        i2
                    };
                    let b1 = if i1 < i2 {
                        i2
                    } else {
                        i1
                    };
                    GapClusters {
                        intra_to_inter_threshold: (sorted[b0] + sorted[b0 + 1]) / 2,
                        inter_to_word_threshold: (sorted[b1] + sorted[b1 + 1]) / 2,
                    }
                },
            }
        },
    }
}

/// Durations above the analysis ceiling are treated as that ceiling.
pub open spec fn clamp_us(us: u64) -> u64 {
    if us > MAX_DURATION_US {
        MAX_DURATION_US
    } else {
        us
    }
}

/// A tone that survives the noise floor.
pub open spec fn is_valid_on(s: MorseSignal) -> bool {
    s.on && s.micros >= NOISE_THRESHOLD_US
}

/// A silence that survives the noise floor.
pub open spec fn is_valid_off(s: MorseSignal) -> bool {
    !s.on && s.micros >= NOISE_THRESHOLD_US
}

/// The clamped durations of the tones that survive the noise floor, in
/// order.
pub open spec fn spec_on_durations(sigs: Seq<MorseSignal>) -> Seq<u64>
    decreases sigs.len(),
{
    if sigs.len() == 0 {
        Seq::empty()
    } else {
        let rest = spec_on_durations(sigs.drop_last());
        if is_valid_on(sigs.last()) {
            rest.push(clamp_us(sigs.last().micros))
        } else {
            rest
        }
    }
}

/// The clamped durations of the silences that survive the noise floor,
/// in order.
pub open spec fn spec_off_durations(sigs: Seq<MorseSignal>) -> Seq<u64>
    decreases sigs.len(),
{
    if sigs.len() == 0 {
        Seq::empty()
    } else {
        let rest = spec_off_durations(sigs.drop_last());
        if is_valid_off(sigs.last()) {
            rest.push(clamp_us(sigs.last().micros))
        } else {
            rest
        }
    }
}

/// Session-wide timing: the unit time and the gap thresholds, all in
/// microseconds.
#[derive(Clone, Copy, PartialEq, Eq, Structural, Debug)]
pub struct MorseTimings {
    /// Estimated length of one dot.
    pub dot_duration: u64,
    /// Clustering-based gap thresholds.
    pub gap_clusters: GapClusters,
}

impl MorseTimings {
    pub open spec fn wf(self) -> bool {
        &&& 1 <= self.dot_duration <= MAX_DURATION_US
        &&& self.gap_clusters.wf()
    }

    /// Analyse a signal batch. Fails exactly when no tone survives the
    /// noise floor; that is the decoder's only hard failure.
    pub fn from_signals(signals: &Vec<MorseSignal>) -> (r: Result<MorseTimings, String>)
        ensures
            (r is Err) <==> (forall|i: int|
                0 <= i < signals@.len() ==> !is_valid_on(#[trigger] signals@[i])),
            r matches Err(m) ==> m@ == "No valid on signals found"@,
            r matches Ok(t) ==> {
                &&& t.wf()
                &&& t.dot_duration == spec_find_dot(spec_on_durations(signals@))
                &&& t.gap_clusters.intra_to_inter_threshold == spec_cluster_intra(
                    spec_off_durations(signals@),
                    t.dot_duration,
                )
                &&& t.gap_clusters.inter_to_word_threshold == spec_cluster_word(
                    spec_off_durations(signals@),
                    t.dot_duration,
                )
            },
    {
        let ghost sigs = signals@;
        let mut on_durations: Vec<u64> = Vec::new();
        let mut off_durations: Vec<u64> = Vec::new();
        let mut k: usize = 0;
        while k < signals.len()
            invariant
                sigs == signals@,
                k <= sigs.len(),
                on_durations@ == spec_on_durations(sigs.take(k as int)),
                off_durations@ == spec_off_durations(sigs.take(k as int)),
                (on_durations@.len() > 0) <==> (exists|j: int|
                    0 <= j < k && is_valid_on(#[trigger] sigs[j])),
                forall|q: int|
                    0 <= q < on_durations@.len() ==> NOISE_THRESHOLD_US
                        <= #[trigger] on_durations@[q] <= MAX_DURATION_US,
                forall|q: int|
                    0 <= q < off_durations@.len() ==> NOISE_THRESHOLD_US
                        <= #[trigger] off_durations@[q] <= MAX_DURATION_US,
            decreases sigs.len() - k,
        {
            let s = signals[k];
            let clamped = if s.micros > MAX_DURATION_US {
                MAX_DURATION_US
            } else {
                s.micros
            };
            if s.micros >= NOISE_THRESHOLD_US {
                if s.on {
                    on_durations.push(clamped);
                } else {
                    off_durations.push(clamped);
                }
            }
            proof {
                assert(sigs.take(k as int + 1).drop_last() =~= sigs.take(k as int));
                assert(sigs.take(k as int + 1).last() == sigs[k as int]);
            }
            k = k + 1;
        }
        proof {
            assert(sigs.take(sigs.len() as int) =~= sigs);
        }

        if on_durations.len() == 0 {
            return Err(String::from_str("No valid on signals found"));
        }

        let dot_duration = find_dot_duration(&on_durations);
        let gap_clusters = cluster_gap_durations(&off_durations, dot_duration);
        Ok(MorseTimings { dot_duration, gap_clusters })
    }
}

} // verus!
