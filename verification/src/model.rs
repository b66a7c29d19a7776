//! Online timing estimation and the probabilistic timing model.
//!
//! The tracker keeps the log of the current unit time (one dot) and
//! adapts it with an exponentially weighted moving average in log
//! space. The cost model turns a duration into a cost for each
//! candidate classification: a log-normal likelihood around one and
//! three units for tones, and distances from the clustering thresholds
//! for gaps.

use vstd::prelude::*;
use vstd::arithmetic::mul::lemma_mul_upper_bound;
use crate::fixmath::abs_diff;
use crate::fixmath::ln_micros;
use crate::fixmath::spec_abs_diff;
use crate::fixmath::spec_ln_micros;
use crate::fixmath::LN3_MILLI;
use crate::types::GapType;
use crate::types::MorseElementType;

verus! {

/// Signals shorter than this many microseconds are noise (0.01 s).
pub const NOISE_THRESHOLD_US: u64 = 10_000;

/// Durations are clamped to this many microseconds before analysis, so
/// that all threshold arithmetic stays far from overflow.
pub const MAX_DURATION_US: u64 = 1_000_000_000_000;

/// Upper bound of every clustering threshold.
pub const THRESHOLD_CAP_US: u64 = 5_000_000_000_000;

/// Lowest value the tracked log unit time can take: the log of one
/// microsecond read as a dash.
pub const LN_T_MIN: i64 = -14915;

/// Highest value the tracked log unit time can take.
pub const LN_T_MAX: i64 = 32000;

/// A duration of zero microseconds is read as one, so its logarithm is
/// defined.
pub open spec fn clamp1_spec(us: u64) -> u64 {
    if us == 0 {
        1u64
    } else {
        us
    }
}

/// Online adaptive estimator of the unit time, in log space.
pub struct TimingTracker {
    ln_t: i64,
}

impl TimingTracker {
    /// The tracked log unit time, in millinats relative to one second.
    pub closed spec fn ln_t_spec(self) -> int {
        self.ln_t as int
    }

    /// The tracked value stays inside the representable log range.
    pub open spec fn wf(self) -> bool {
        LN_T_MIN <= self.ln_t_spec() <= LN_T_MAX
    }

    /// What one update does: read the new duration as a dot or a dash,
    /// whichever its log is closer to, and blend the implied unit time
    /// into the estimate with weight one tenth.
    pub open spec fn spec_update(lt: int, lnd: int) -> int {
        let d1 = spec_abs_diff(lnd, lt);
        let d3 = spec_abs_diff(lnd, lt + LN3_MILLI);
        let target = if d1 < d3 {
            lnd
        } else {
            lnd - LN3_MILLI
        };
        (9 * lt + target) / 10
    }

    /// Start from an initial unit-time guess in microseconds.
    pub fn new(initial_us: u64) -> (t: TimingTracker)
        ensures
            t.wf(),
            t.ln_t_spec() == spec_ln_micros(clamp1_spec(initial_us) as int),
    {
        let us = if initial_us == 0 {
            1u64
        } else {
            initial_us
        };
        TimingTracker { ln_t: ln_micros(us) }
    }

    /// Fold one observed tone duration into the estimate.
    pub fn update_from_on_signal(&mut self, duration_us: u64)
        requires
            old(self).wf(),
        ensures
            final(self).wf(),
            final(self).ln_t_spec() == TimingTracker::spec_update(
                old(self).ln_t_spec(),
                spec_ln_micros(clamp1_spec(duration_us) as int),
            ),
    {
        let us = if duration_us == 0 {
            1u64
        } else {
            duration_us
        };
        let lnd = ln_micros(us);
        let d1 = abs_diff(lnd, self.ln_t);
        let d3 = abs_diff(lnd, self.ln_t + LN3_MILLI);
        let target = if d1 < d3 {
            lnd
        } else {
            lnd - LN3_MILLI
        };
        let n = 9 * self.ln_t + target;
        let q = if n >= 0 {
            n / 10
        } else {
            -((-n + 9) / 10)
        };
        proof {
            assert(q == (9 * old(self).ln_t_spec() + target) / 10);
        }
        self.ln_t = q;
    }

    /// The current log unit time.
    pub fn get_ln_t(&self) -> (r: i64)
        ensures
            r == self.ln_t_spec(),
    {
        self.ln_t
    }
}

/// Gap classification thresholds discovered by clustering, in
/// microseconds.
#[derive(Clone, Copy, PartialEq, Eq, Structural, Debug)]
pub struct GapClusters {
    /// Gaps up to this long stay inside a character.
    pub intra_to_inter_threshold: u64,
    /// Gaps longer than this separate words.
    pub inter_to_word_threshold: u64,
}

impl GapClusters {
    /// Thresholds are ordered and bounded.
    pub open spec fn wf(self) -> bool {
        &&& 1 <= self.intra_to_inter_threshold
        &&& self.intra_to_inter_threshold <= self.inter_to_word_threshold
        &&& self.inter_to_word_threshold <= THRESHOLD_CAP_US
    }
}

/// The negative log-likelihood, in millinats, of a duration whose log
/// is `lnx` under a log-normal with log-mean `mu` and log-sigma one
/// half: `z^2/2 + ln x + ln(sigma * sqrt(2 pi))`, with 226 millinats
/// for the constant term.
pub open spec fn spec_lognormal_cost(lnx: int, mu: int) -> int {
    let zm = 2 * spec_abs_diff(lnx, mu);
    zm * zm / 2000 + lnx + 226
}

/// Probabilistic timing model: log-normal costs for tones, threshold
/// distances for gaps.
pub struct ProbabilisticTimingModel {
    /// Log of the unit time the model is anchored to, in millinats.
    pub ln_t: i64,
    /// Adaptive gap classification thresholds.
    pub gap_clusters: GapClusters,
}

impl ProbabilisticTimingModel {
    /// The log unit time the model is anchored to.
    pub open spec fn ln_t_spec(self) -> int {
        self.ln_t as int
    }

    pub open spec fn wf(self) -> bool {
        &&& LN_T_MIN <= self.ln_t_spec() <= LN_T_MAX
        &&& self.gap_clusters.wf()
    }

    /// Anchor a model at the tracker's current estimate, keeping the
    /// session's gap clusters.
    pub fn from_tracker_and_clusters(tracker: &TimingTracker, gap_clusters: GapClusters) -> (m:
        ProbabilisticTimingModel)
        requires
            tracker.wf(),
            gap_clusters.wf(),
        ensures
            m.wf(),
            m.ln_t_spec() == tracker.ln_t_spec(),
            m.gap_clusters == gap_clusters,
    {
        ProbabilisticTimingModel { ln_t: tracker.get_ln_t(), gap_clusters }
    }

    /// Cost of reading a tone of this length as a dot.
    pub open spec fn spec_dot_cost(self, duration_us: u64) -> int {
        spec_lognormal_cost(spec_ln_micros(clamp1_spec(duration_us) as int), self.ln_t_spec())
    }

    /// Cost of reading a tone of this length as a dash (three units).
    pub open spec fn spec_dash_cost(self, duration_us: u64) -> int {
        spec_lognormal_cost(
            spec_ln_micros(clamp1_spec(duration_us) as int),
            self.ln_t_spec() + LN3_MILLI,
        )
    }

    /// The negative log-likelihood of the tone under each candidate
    /// element, dot first.
    pub fn element_costs(&self, duration_us: u64) -> (r: [(MorseElementType, i64); 2])
        requires
            self.wf(),
        ensures
            r@.len() == 2,
            r@[0] == (MorseElementType::Dot, self.spec_dot_cost(duration_us) as i64),
            r@[1] == (MorseElementType::Dash, self.spec_dash_cost(duration_us) as i64),
            i64::MIN < self.spec_dot_cost(duration_us) < i64::MAX,
            i64::MIN < self.spec_dash_cost(duration_us) < i64::MAX,
    {
        let us = if duration_us == 0 {
            1u64
        } else {
            duration_us
        };
        let lnx = ln_micros(us);
        let dot = Self::lognormal_cost(lnx, self.ln_t);
        let dash = Self::lognormal_cost(lnx, self.ln_t + LN3_MILLI);
        [(MorseElementType::Dot, dot), (MorseElementType::Dash, dash)]
    }

    /// Shared log-normal cost computation for one candidate log-mean.
    fn lognormal_cost(lnx: i64, mu: i64) -> (r: i64)
        requires
            -14000 <= lnx <= 32000,
            -15000 <= mu <= 34000,
        ensures
            r == spec_lognormal_cost(lnx as int, mu as int),
            -20000 <= r <= 5_000_000_000,
    {
        let ad = abs_diff(lnx, mu);
        let zm = 2 * ad;
        proof {
            assert((zm as int) * (zm as int) <= 98000 * 98000) by {
                lemma_mul_upper_bound(zm as int, 98000, zm as int, 98000);
            }
        }
        let zsq = zm * zm;
        zsq / 2000 + lnx + 226
    }

    /// Cost of reading a silence of this length as an intra-character
    /// gap: distance from the middle of the short-gap band, or from its
    /// upper edge when the gap is longer than that band.
    pub open spec fn spec_intra_cost(self, d: u64) -> int {
        let thr = self.gap_clusters.intra_to_inter_threshold;
        if d <= thr {
            spec_abs_diff(d as int, thr as int / 2) / 10000
        } else {
            (d - thr) / 2000
        }
    }

    /// Cost of reading a silence as an inter-character gap: distance
    /// from the middle of the medium band, or from the nearer band edge
    /// outside it.
    pub open spec fn spec_inter_cost(self, d: u64) -> int {
        let t1 = self.gap_clusters.intra_to_inter_threshold;
        let t2 = self.gap_clusters.inter_to_word_threshold;
        if t1 < d <= t2 {
            spec_abs_diff(d as int, (t1 + t2) / 2) / 10000
        } else if d <= t1 {
            (t1 - d) / 2000
        } else {
            (d - t2) / 2000
        }
    }

    /// Cost of reading a silence as a word gap: distance from a point
    /// somewhat above the word threshold, or from the threshold itself
    /// when the gap is shorter.
    pub open spec fn spec_word_cost(self, d: u64) -> int {
        let t2 = self.gap_clusters.inter_to_word_threshold;
        if d > t2 {
            spec_abs_diff(d as int, (t2 * 12) / 10) / 10000
        } else {
            (t2 - d) / 2000
        }
    }

    /// The cost of each candidate role of a silence, in the order
    /// intra-character, inter-character, word.
    pub fn gap_costs(&self, duration_us: u64) -> (r: [(GapType, i64); 3])
        requires
            self.wf(),
            duration_us <= MAX_DURATION_US,
        ensures
            r@.len() == 3,
            r@[0] == (GapType::IntraCharacter, self.spec_intra_cost(duration_us) as i64),
            r@[1] == (GapType::InterCharacter, self.spec_inter_cost(duration_us) as i64),
            r@[2] == (GapType::Word, self.spec_word_cost(duration_us) as i64),
            0 <= self.spec_intra_cost(duration_us) < i64::MAX,
            0 <= self.spec_inter_cost(duration_us) < i64::MAX,
            0 <= self.spec_word_cost(duration_us) < i64::MAX,
    {
        let d = duration_us;
        let t1 = self.gap_clusters.intra_to_inter_threshold;
        let t2 = self.gap_clusters.inter_to_word_threshold;

        let intra: u64 = if d <= t1 {
            let mid = t1 / 2;
            let diff = if d >= mid {
                d - mid
            } else {
                mid - d
            };
            diff / 10000
        } else {
            (d - t1) / 2000
        };

        let inter: u64 = if d > t1 && d <= t2 {
            let mid = (t1 + t2) / 2;
            let diff = if d >= mid {
                d - mid
            } else {
                mid - d
            };
            diff / 10000
        } else if d <= t1 {
            (t1 - d) / 2000
        } else {
            (d - t2) / 2000
        };

        let word: u64 = if d > t2 {
            let anchor = (t2 * 12) / 10;
            let diff = if d >= anchor {
                d - anchor
            } else {
                anchor - d
            };
            diff / 10000
        } else {
            (t2 - d) / 2000
        };

        [
            (GapType::IntraCharacter, intra as i64),
            (GapType::InterCharacter, inter as i64),
            (GapType::Word, word as i64),
        ]
    }

    /// Which element a tone is read as when only the cheaper candidate
    /// is kept: the dot wherever the costs tie.
    pub open spec fn spec_classify_element(self, duration_us: u64) -> MorseElementType {
        if self.spec_dot_cost(duration_us) <= self.spec_dash_cost(duration_us) {
            MorseElementType::Dot
        } else {
            MorseElementType::Dash
        }
    }

    /// The cost the model charges for the minimum-cost reading of a
    /// tone: the dot cost when the tone is read as a dot, the dash cost
    /// otherwise.
    pub open spec fn spec_element_cost(self, duration_us: u64) -> int {
        if self.spec_classify_element(duration_us) == MorseElementType::Dot {
            self.spec_dot_cost(duration_us)
        } else {
            self.spec_dash_cost(duration_us)
        }
    }

    /// The minimum-cost classification of a tone.
    pub fn classify_element_min_cost(&self, duration_us: u64) -> (r: MorseElementType)
        requires
            self.wf(),
        ensures
            r == self.spec_classify_element(duration_us),
    {
        let costs = self.element_costs(duration_us);
        if costs[0].1 <= costs[1].1 {
            costs[0].0
        } else {
            costs[1].0
        }
    }

    /// Which role a silence is read as when only the cheapest candidate
    /// is kept; earlier candidates win ties, in the order
    /// intra-character, inter-character, word.
    pub open spec fn spec_classify_gap(self, duration_us: u64) -> GapType {
        let ci = self.spec_intra_cost(duration_us);
        let cn = self.spec_inter_cost(duration_us);
        let cw = self.spec_word_cost(duration_us);
        let m1 = if cn < ci {
            cn
        } else {
            ci
        };
        if cw < m1 {
            GapType::Word
        } else if cn < ci {
            GapType::InterCharacter
        } else {
            GapType::IntraCharacter
        }
    }

    /// The minimum-cost classification of a silence.
    pub fn classify_gap_min_cost(&self, duration_us: u64) -> (r: GapType)
        requires
            self.wf(),
            duration_us <= MAX_DURATION_US,
        ensures
            r == self.spec_classify_gap(duration_us),
    {
        let costs = self.gap_costs(duration_us);
        let mut min_cost = costs[0].1;
        let mut min_type = costs[0].0;
        if costs[1].1 < min_cost {
            min_cost = costs[1].1;
            min_type = costs[1].0;
        }
        if costs[2].1 < min_cost {
            min_type = costs[2].0;
        }
        min_type
    }
}

} // verus!
