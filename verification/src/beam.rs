//! Beam search decoding: hypotheses, pruning, and the per-signal
//! expansion rules.
//!
//! A hypothesis is one candidate partial decoding: a position in the
//! trie, the two characters of language-model context, the accumulated
//! cost, and the text emitted so far. Each signal forks the surviving
//! hypotheses; pruning keeps the cheapest `beam_size` of them.

use vstd::prelude::*;
use vstd::relations::sorted_by;
use vstd::seq_lib::lemma_multiset_commutative;
use crate::fixmath::sat_add;
use crate::fixmath::spec_sat_add;
use crate::lm::LanguageModel;
use crate::model::ProbabilisticTimingModel;
use crate::model::TimingTracker;
use crate::patterns::is_text_byte;
use crate::text::char_str;
use crate::text::is_text_char;
use crate::trie::MorseTrie;

verus! {

/// How many hypotheses survive each pruning step.
pub const DEFAULT_BEAM_SIZE: usize = 64;

/// Cost of inserting a space, in millinats.
pub const DEFAULT_SPACE_PENALTY: i64 = 300;

/// Weight of the language model relative to the timing costs.
pub const DEFAULT_LM_WEIGHT: i64 = 2;

/// Penalty for keeping a suspiciously long gap inside a character.
pub const DEFAULT_LATE_INTRA_PENALTY: i64 = 500;

/// Penalty for a very long inter-character gap that completes nothing.
pub const DEFAULT_LONG_INTER_PENALTY: i64 = 600;

/// Words longer than this make the search consider an extra space.
pub const LONG_WORD_LENGTH_THRESHOLD: u16 = 3;

/// One candidate partial decoding.
pub struct Hypothesis {
    /// Current position in the trie; 0 is the root.
    pub trie_node: u16,
    /// The last two emitted characters, for the trigram model.
    pub lm_context: [u8; 2],
    /// Characters emitted since the last space.
    pub pending_word_len: u16,
    /// Accumulated cost: timing, language and spacing penalties.
    pub cost: i64,
    /// The text decoded so far.
    pub text: String,
}

impl Hypothesis {
    /// A hypothesis whose text contains only decodable characters and
    /// whose trie position stays inside an arena of `trie_len` nodes.
    pub open spec fn wf(self, trie_len: int) -> bool {
        &&& self.trie_node < trie_len
        &&& forall|i: int| 0 <= i < self.text@.len() ==> is_text_char(#[trigger] self.text@[i])
    }

    /// The initial hypothesis: at the root, with space context, no
    /// cost, no text.
    pub fn new() -> (h: Hypothesis)
        ensures
            h.trie_node == 0,
            h.lm_context@ == seq![32u8, 32u8],
            h.pending_word_len == 0,
            h.cost == 0,
            h.text@ == Seq::<char>::empty(),
    {
        Hypothesis {
            trie_node: 0,
            lm_context: [32, 32],
            pending_word_len: 0,
            cost: 0,
            text: String::new(),
        }
    }

    /// Emit one character: push it to the text, pay its cost, shift
    /// the language-model context, track the word length, and reset
    /// the trie position.
    pub fn add_character(&mut self, ch: u8, lm_cost: i64)
        requires
            is_text_byte(ch),
        ensures
            final(self).text@ == old(self).text@.push(ch as char),
            final(self).cost == spec_sat_add(old(self).cost as int, lm_cost as int),
            final(self).lm_context@ == seq![old(self).lm_context@[1], ch],
            final(self).pending_word_len == (if ch == 32 {
                0
            } else if old(self).pending_word_len < u16::MAX {
                old(self).pending_word_len + 1
            } else {
                u16::MAX as int
            }),
            final(self).trie_node == 0,
    {
        self.text.append(char_str(ch));
        self.cost = sat_add(self.cost, lm_cost);
        self.lm_context = [self.lm_context[1], ch];
        if ch == 32 {
            self.pending_word_len = 0;
        } else if self.pending_word_len < u16::MAX {
            self.pending_word_len = self.pending_word_len + 1;
        }
        self.trie_node = 0;
        proof {
            assert(self.text@ =~= old(self).text@.push(ch as char));
            assert(self.lm_context@ =~= seq![old(self).lm_context@[1], ch]);
        }
    }

    /// An identical copy, forked for beam expansion.
    pub fn fork(&self) -> (h: Hypothesis)
        ensures
            h == *self,
    {
        Hypothesis {
            trie_node: self.trie_node,
            lm_context: self.lm_context,
            pending_word_len: self.pending_word_len,
            cost: self.cost,
            text: self.text.clone(),
        }
    }
}

/// The longest text any hypothesis in the beam has emitted.
pub open spec fn max_text_len(hs: Seq<Hypothesis>) -> int
    decreases hs.len(),
{
    if hs.len() == 0 {
        0
    } else {
        let rest = max_text_len(hs.drop_last());
        if hs.last().text@.len() > rest {
            hs.last().text@.len() as int
        } else {
            rest
        }
    }
}

/// The maximum is at least zero and bounds every member.
pub proof fn lemma_max_text_len_index(hs: Seq<Hypothesis>, i: int)
    requires
        0 <= i < hs.len(),
    ensures
        max_text_len(hs) >= 0,
        hs[i].text@.len() <= max_text_len(hs),
    decreases hs.len(),
{
    lemma_max_text_len_nonneg(hs);
    if i < hs.len() - 1 {
        lemma_max_text_len_index(hs.drop_last(), i);
    }
}

pub proof fn lemma_max_text_len_nonneg(hs: Seq<Hypothesis>)
    ensures
        max_text_len(hs) >= 0,
    decreases hs.len(),
{
    if hs.len() > 0 {
        lemma_max_text_len_nonneg(hs.drop_last());
    }
}

/// A common bound of all members bounds the maximum.
pub proof fn lemma_max_text_len_le(hs: Seq<Hypothesis>, b: int)
    requires
        forall|i: int| 0 <= i < hs.len() ==> (#[trigger] hs[i]).text@.len() <= b,
        b >= 0,
    ensures
        max_text_len(hs) <= b,
    decreases hs.len(),
{
    if hs.len() > 0 {
        assert(forall|i: int|
            0 <= i < hs.drop_last().len() ==> (#[trigger] hs.drop_last()[i]).text@.len() <= b);
        lemma_max_text_len_le(hs.drop_last(), b);
    }
}

/// The ordering of hypotheses during pruning: ascending accumulated
/// cost.
pub open spec fn leq_cost() -> spec_fn(Hypothesis, Hypothesis) -> bool {
    |a: Hypothesis, b: Hypothesis| a.cost <= b.cost
}

/// Sort hypotheses by ascending cost, stably: among equal costs the
/// earlier hypothesis stays first.
fn sort_hypotheses(v: &Vec<Hypothesis>) -> (r: Vec<Hypothesis>)
    ensures
        r@.len() == v@.len(),
        sorted_by(r@, leq_cost()),
        r@.to_multiset() == v@.to_multiset(),
{
    proof {
        broadcast use vstd::seq_lib::group_to_multiset_ensures;

    }
    let mut out: Vec<Hypothesis> = Vec::new();
    let mut k: usize = 0;
    while k < v.len()
        invariant
            k <= v@.len(),
            sorted_by(out@, leq_cost()),
            out@.to_multiset() == v@.take(k as int).to_multiset(),
            out@.len() == k,
        decreases v@.len() - k,
    {
        let x = v[k].fork();
        let ghost xv = v@[k as int];
        let mut pos: usize = 0;
        while pos < out.len() && out[pos].cost <= x.cost
            invariant
                pos <= out@.len(),
                forall|i: int| 0 <= i < pos ==> (#[trigger] out@[i]).cost <= x.cost,
            decreases out@.len() - pos,
        {
            pos = pos + 1;
        }
        let ghost prev = out@;
        out.insert(pos, x);
        proof {
            broadcast use vstd::seq_lib::group_to_multiset_ensures;

            prev.insert_ensures(pos as int, xv);
            assert(sorted_by(out@, leq_cost())) by {
                assert forall|i: int, j: int| 0 <= i < j < out@.len() implies leq_cost()(
                    out@[i],
                    out@[j],
                ) by {
                    if j < pos {
                        assert(leq_cost()(prev[i], prev[j]));
                    } else if i < pos && j == pos {
                        assert(out@[i] == prev[i]);
                    } else if i < pos && j > pos {
                        assert(out@[j] == prev[j - 1]);
                        if pos < prev.len() {
                            if i < j - 1 {
                                assert(leq_cost()(prev[i], prev[j - 1]));
                            }
                        }
                    } else if i == pos {
                        assert(out@[j] == prev[j - 1]);
                        if pos < prev.len() {
                            assert(!(prev[pos as int].cost <= xv.cost));
                            if pos < j - 1 {
                                assert(leq_cost()(prev[pos as int], prev[j - 1]));
                            }
                        }
                    } else {
                        assert(out@[i] == prev[i - 1] && out@[j] == prev[j - 1]);
                        assert(leq_cost()(prev[i - 1], prev[j - 1]));
                    }
                }
            }
            assert(out@.to_multiset() == v@.take(k as int + 1).to_multiset()) by {
                assert(out@ =~= prev.take(pos as int).push(xv) + prev.skip(pos as int));
                lemma_multiset_commutative(prev.take(pos as int).push(xv), prev.skip(pos as int));
                assert(prev.take(pos as int).push(xv).to_multiset() =~= prev.take(
                    pos as int,
                ).to_multiset().insert(xv));
                lemma_multiset_commutative(prev.take(pos as int), prev.skip(pos as int));
                assert(prev.take(pos as int) + prev.skip(pos as int) =~= prev);
                assert(out@.to_multiset() =~= prev.to_multiset().insert(xv));
                assert(v@.take(k as int + 1) =~= v@.take(k as int).push(xv));
                assert(v@.take(k as int + 1).to_multiset() =~= v@.take(k as int).to_multiset()
                    .insert(xv));
            }
        }
        k = k + 1;
    }
    proof {
        assert(v@.take(v@.len() as int) =~= v@);
    }
    out
}

/// Beam search parameters.
#[derive(Clone, Copy, Debug)]
pub struct BeamSearchParams {
    /// Largest number of hypotheses kept after pruning.
    pub beam_size: usize,
    /// Cost added when a space is inserted, in millinats.
    pub space_penalty: i64,
    /// Multiplier applied to language-model costs.
    pub lm_weight: i64,
    /// Penalty for a late intra-character gap, in millinats.
    pub late_intra_penalty: i64,
    /// Penalty for a long inter-character gap, in millinats.
    pub long_inter_penalty: i64,
}

impl BeamSearchParams {
    pub open spec fn wf(self) -> bool {
        &&& 1 <= self.beam_size
        &&& 0 <= self.space_penalty <= 100_000
        &&& 0 <= self.lm_weight <= 100
        &&& 0 <= self.late_intra_penalty <= 100_000
        &&& 0 <= self.long_inter_penalty <= 100_000
    }
}

impl Default for BeamSearchParams {
    /// The tuned defaults.
    fn default() -> (d: Self)
        ensures
            d.wf(),
            d.beam_size == DEFAULT_BEAM_SIZE,
            d.space_penalty == DEFAULT_SPACE_PENALTY,
            d.lm_weight == DEFAULT_LM_WEIGHT,
            d.late_intra_penalty == DEFAULT_LATE_INTRA_PENALTY,
            d.long_inter_penalty == DEFAULT_LONG_INTER_PENALTY,
    {
        BeamSearchParams {
            beam_size: DEFAULT_BEAM_SIZE,
            space_penalty: DEFAULT_SPACE_PENALTY,
            lm_weight: DEFAULT_LM_WEIGHT,
            late_intra_penalty: DEFAULT_LATE_INTRA_PENALTY,
            long_inter_penalty: DEFAULT_LONG_INTER_PENALTY,
        }
    }
}

/// A language-model cost scaled by the model weight.
fn weight_cost(c: i64, w: i64) -> (r: i64)
    requires
        0 <= c <= 8000,
        0 <= w <= 100,
    ensures
        r == c * w,
        0 <= r <= 800_000,
{
    proof {
        vstd::arithmetic::mul::lemma_mul_upper_bound(c as int, 8000, w as int, 100);
        vstd::arithmetic::mul::lemma_mul_nonnegative(c as int, w as int);
    }
    c * w
}

/// The number of hypotheses kept after pruning a beam of `n` down to
/// `beam_size`: all of them while they fit, `beam_size` otherwise.
pub open spec fn pruned_len(n: int, beam_size: int) -> int {
    if n <= beam_size {
        n
    } else {
        beam_size
    }
}

/// Beam search decoder over a signal stream.
pub struct BeamSearchDecoder {
    /// The hypotheses currently alive.
    pub hypotheses: Vec<Hypothesis>,
    /// Search parameters.
    pub params: BeamSearchParams,
    /// The pattern trie.
    pub trie: MorseTrie,
    /// The trigram language model.
    pub lm: LanguageModel,
    /// Online estimate of the unit time.
    pub timing_tracker: TimingTracker,
    /// Cost model anchored at the current estimate.
    pub timing_model: ProbabilisticTimingModel,
}

impl BeamSearchDecoder {
    /// Every component is sound and every hypothesis points into the
    /// trie and carries only decodable text.
    pub open spec fn wf(self) -> bool {
        &&& self.trie.wf()
        &&& self.lm.wf()
        &&& self.timing_tracker.wf()
        &&& self.timing_model.wf()
        &&& self.params.wf()
        &&& forall|i: int|
            0 <= i < self.hypotheses@.len() ==> (#[trigger] self.hypotheses@[i]).wf(
                self.trie.nodes_seq().len() as int,
            )
    }

    /// The successor of one hypothesis on a tone: advance along the
    /// minimum-cost element and pay that element's cost; a hypothesis
    /// whose trie position has no such transition has no successor.
    pub open spec fn spec_on_successor(self, h: Hypothesis, duration_us: u64) -> Option<Hypothesis> {
        let e = self.timing_model.spec_classify_element(duration_us);
        match self.trie.step_spec(h.trie_node as int, e) {
            Some(n) => Some(
                Hypothesis {
                    trie_node: n as u16,
                    lm_context: h.lm_context,
                    pending_word_len: h.pending_word_len,
                    cost: spec_sat_add(
                        h.cost as int,
                        self.timing_model.spec_element_cost(duration_us),
                    ) as i64,
                    text: h.text,
                },
            ),
            None => None,
        }
    }

    /// The beam a tone produces before pruning: every hypothesis's
    /// successor, in beam order; hypotheses without one are dropped.
    pub open spec fn spec_on_expansion(self, hs: Seq<Hypothesis>, duration_us: u64) -> Seq<
        Hypothesis,
    >
        decreases hs.len(),
    {
        if hs.len() == 0 {
            Seq::empty()
        } else {
            let rest = self.spec_on_expansion(hs.drop_last(), duration_us);
            match self.spec_on_successor(hs.last(), duration_us) {
                Some(h) => rest.push(h),
                None => rest,
            }
        }
    }

    /// Whether a silence is suspiciously long for an intra-character
    /// gap: its log-duration exceeds the log unit time by more than
    /// ln 2.
    pub open spec fn spec_late_intra(self, duration_us: u64) -> bool {
        crate::fixmath::spec_ln_micros(crate::model::clamp1_spec(duration_us) as int)
            > self.timing_tracker.ln_t_spec() + crate::fixmath::LN2_MILLI as int
    }

    /// Whether a silence is long even for an inter-character gap: its
    /// log-duration exceeds the log unit time by more than ln 4.
    pub open spec fn spec_long_inter(self, duration_us: u64) -> bool {
        crate::fixmath::spec_ln_micros(crate::model::clamp1_spec(duration_us) as int)
            > self.timing_tracker.ln_t_spec() + crate::fixmath::LN4_MILLI as int
    }

    /// A hypothesis carried through an intra-character silence: nothing
    /// emitted, the intra cost paid, and the late penalty on top when
    /// the gap is suspiciously long.
    pub open spec fn spec_intra_successor(self, h: Hypothesis, duration_us: u64) -> Hypothesis {
        let c0 = spec_sat_add(h.cost as int, self.timing_model.spec_intra_cost(duration_us));
        let c = if self.spec_late_intra(duration_us) {
            spec_sat_add(c0, self.params.late_intra_penalty as int)
        } else {
            c0
        };
        Hypothesis {
            trie_node: h.trie_node,
            lm_context: h.lm_context,
            pending_word_len: h.pending_word_len,
            cost: c as i64,
            text: h.text,
        }
    }

    /// The hedge against a misread inter-character gap: continue inside
    /// the character at the intra cost, with the long penalty on top
    /// when the gap is long even for a character boundary.
    pub open spec fn spec_hedge_successor(self, h: Hypothesis, duration_us: u64) -> Hypothesis {
        let c0 = spec_sat_add(h.cost as int, self.timing_model.spec_intra_cost(duration_us));
        let c = if self.spec_long_inter(duration_us) {
            spec_sat_add(c0, self.params.long_inter_penalty as int)
        } else {
            c0
        };
        Hypothesis {
            trie_node: h.trie_node,
            lm_context: h.lm_context,
            pending_word_len: h.pending_word_len,
            cost: c as i64,
            text: h.text,
        }
    }

    /// The weighted language-model cost of emitting `next` after the
    /// two context bytes.
    pub open spec fn spec_lm_cost(self, c0: u8, c1: u8, next: u8) -> int {
        self.lm.spec_cost(c0, c1, next) * self.params.lm_weight
    }

    /// `h2` is `h` with the character `ch` emitted: the text grows by
    /// `ch`, the context shifts, the word length and trie position move
    /// as an emission does, and the cost grows by the weighted
    /// language-model cost of `ch` and then by `gap_cost`, saturating.
    pub open spec fn spec_emits(self, h: Hypothesis, h2: Hypothesis, ch: u8, gap_cost: int) -> bool {
        &&& h2.text@ == h.text@.push(ch as char)
        &&& h2.lm_context@ == seq![h.lm_context@[1], ch]
        &&& h2.pending_word_len == (if ch == 32 {
            0int
        } else if h.pending_word_len < u16::MAX {
            h.pending_word_len + 1
        } else {
            u16::MAX as int
        })
        &&& h2.trie_node == 0
        &&& h2.cost == spec_sat_add(
            spec_sat_add(
                h.cost as int,
                self.spec_lm_cost(h.lm_context@[0], h.lm_context@[1], ch),
            ),
            gap_cost,
        )
    }

    /// `h2` is `h` with `ch` and a following space emitted: two
    /// emissions, the space paying its weighted language-model cost
    /// plus `space_extra`, then `gap_cost`, all saturating in order.
    pub open spec fn spec_emits_space(
        self,
        h: Hypothesis,
        h2: Hypothesis,
        ch: u8,
        gap_cost: int,
        space_extra: int,
    ) -> bool {
        let c1 = spec_sat_add(
            h.cost as int,
            self.spec_lm_cost(h.lm_context@[0], h.lm_context@[1], ch),
        );
        let c2 = spec_sat_add(
            c1,
            spec_sat_add(self.spec_lm_cost(h.lm_context@[1], ch, 32), space_extra),
        );
        &&& h2.text@ == h.text@.push(ch as char).push(32 as char)
        &&& h2.lm_context@ == seq![ch, 32u8]
        &&& h2.pending_word_len == 0
        &&& h2.trie_node == 0
        &&& h2.cost == spec_sat_add(c2, gap_cost)
    }

    /// The 0 to 3 successors one hypothesis spawns on a silence, in the
    /// order the decoder creates them. An intra-character gap keeps the
    /// hypothesis; an inter-character gap completes the character when
    /// the trie position is terminal, also starts a new word when the
    /// pending word is already long, and always hedges against the gap
    /// itself being misread; a word gap completes the character and
    /// inserts a space, or kills the hypothesis when nothing completes.
    pub open spec fn spec_off_segment(self, h: Hypothesis, seg: Seq<Hypothesis>, duration_us: u64) -> bool {
        let inter = self.timing_model.spec_inter_cost(duration_us);
        let word = self.timing_model.spec_word_cost(duration_us);
        match self.timing_model.spec_classify_gap(duration_us) {
            crate::types::GapType::IntraCharacter => seg == seq![
                self.spec_intra_successor(h, duration_us),
            ],
            crate::types::GapType::InterCharacter => match self.trie.terminal_spec(h.trie_node) {
                Some(ch) => if h.pending_word_len > LONG_WORD_LENGTH_THRESHOLD {
                    &&& seg.len() == 3
                    &&& self.spec_emits(h, seg[0], ch, inter)
                    &&& self.spec_emits_space(h, seg[1], ch, inter, self.params.space_penalty as int)
                    &&& seg[2] == self.spec_hedge_successor(h, duration_us)
                } else {
                    &&& seg.len() == 2
                    &&& self.spec_emits(h, seg[0], ch, inter)
                    &&& seg[1] == self.spec_hedge_successor(h, duration_us)
                },
                None => seg == seq![self.spec_hedge_successor(h, duration_us)],
            },
            crate::types::GapType::Word => match self.trie.terminal_spec(h.trie_node) {
                Some(ch) => seg.len() == 1 && self.spec_emits_space(h, seg[0], ch, word, 0),
                None => seg.len() == 0,
            },
        }
    }

    /// The whole beam a silence produces before pruning: the
    /// concatenation of every hypothesis's successor segment, in beam
    /// order.
    pub open spec fn spec_off_expansion(
        self,
        hs: Seq<Hypothesis>,
        mid: Seq<Hypothesis>,
        duration_us: u64,
    ) -> bool
        decreases hs.len(),
    {
        if hs.len() == 0 {
            mid.len() == 0
        } else {
            exists|pre: Seq<Hypothesis>, seg: Seq<Hypothesis>|
                #![trigger pre + seg]
                {
                    &&& mid == pre + seg
                    &&& self.spec_off_expansion(hs.drop_last(), pre, duration_us)
                    &&& self.spec_off_segment(hs.last(), seg, duration_us)
                }
        }
    }

    /// `h2` completes `h` at the end of decoding: when the trie
    /// position is terminal the character is emitted at its weighted
    /// language-model cost and nothing else is paid; otherwise the
    /// hypothesis is unchanged.
    pub open spec fn spec_finalizes(self, h: Hypothesis, h2: Hypothesis) -> bool {
        match self.trie.terminal_spec(h.trie_node) {
            Some(ch) => self.spec_emits(h, h2, ch, 0),
            None => h2 == h,
        }
    }

    /// Start a decode: one empty hypothesis, the trie and language
    /// model, and timing anchored at the session's unit-time estimate.
    pub fn new(timings: &crate::analysis::MorseTimings, params: BeamSearchParams) -> (d:
        BeamSearchDecoder)
        requires
            timings.wf(),
            params.wf(),
        ensures
            d.wf(),
            d.hypotheses@.len() == 1,
            d.hypotheses@[0].text@.len() == 0,
            d.hypotheses@[0].cost == 0,
            d.hypotheses@[0].trie_node == 0,
            d.hypotheses@[0].lm_context@ == seq![32u8, 32u8],
            d.hypotheses@[0].pending_word_len == 0,
            forall|c: u8|
                crate::patterns::is_terminal_byte(c) ==> #[trigger] d.trie.covers(c),
            forall|c: u8|
                crate::patterns::is_terminal_byte(c) ==> #[trigger] d.trie.resolves(c),
            d.params == params,
            d.timing_tracker.ln_t_spec() == crate::fixmath::spec_ln_micros(
                crate::model::clamp1_spec(timings.dot_duration) as int,
            ),
            d.timing_model.ln_t_spec() == d.timing_tracker.ln_t_spec(),
            d.timing_model.gap_clusters == timings.gap_clusters,
    {
        let timing_tracker = TimingTracker::new(timings.dot_duration);
        let timing_model = ProbabilisticTimingModel::from_tracker_and_clusters(
            &timing_tracker,
            timings.gap_clusters,
        );
        let mut hypotheses: Vec<Hypothesis> = Vec::new();
        hypotheses.push(Hypothesis::new());
        BeamSearchDecoder {
            hypotheses,
            params,
            trie: crate::trie::get_morse_trie(),
            lm: crate::lm::get_language_model(),
            timing_tracker,
            timing_model,
        }
    }

    /// Keep only the cheapest `beam_size` hypotheses, in ascending
    /// cost order; a beam already within bounds is left untouched. The
    /// survivors are drawn from the old beam, and none of them costs
    /// more than any hypothesis that was discarded.
    pub fn prune_beam(&mut self)
        requires
            old(self).wf(),
        ensures
            final(self).wf(),
            final(self).hypotheses@.len() == pruned_len(
                old(self).hypotheses@.len() as int,
                old(self).params.beam_size as int,
            ),
            final(self).hypotheses@.to_multiset().subset_of(old(self).hypotheses@.to_multiset()),
            forall|i: int, x: Hypothesis|
                0 <= i < final(self).hypotheses@.len() && #[trigger] old(
                    self,
                ).hypotheses@.to_multiset().count(x) > final(self).hypotheses@.to_multiset().count(
                    x,
                ) ==> (#[trigger] final(self).hypotheses@[i]).cost <= x.cost,
            max_text_len(final(self).hypotheses@) <= max_text_len(old(self).hypotheses@),
            old(self).hypotheses@.len() <= old(self).params.beam_size ==> final(self).hypotheses@
                == old(self).hypotheses@,
            final(self).params == old(self).params,
            final(self).trie == old(self).trie,
            final(self).lm == old(self).lm,
            final(self).timing_tracker == old(self).timing_tracker,
            final(self).timing_model == old(self).timing_model,
    {
        proof {
            broadcast use vstd::seq_lib::group_to_multiset_ensures;

        }
        if self.hypotheses.len() <= self.params.beam_size {
            proof {
                assert(self.hypotheses@.to_multiset().subset_of(self.hypotheses@.to_multiset()));
            }
            return ;
        }
        proof {
            lemma_max_text_len_nonneg(self.hypotheses@);
        }
        let ghost old_hyps = self.hypotheses@;
        let mut sorted = sort_hypotheses(&self.hypotheses);
        proof {
            assert forall|i: int| 0 <= i < sorted@.len() implies (#[trigger] sorted@[i]).wf(
                self.trie.nodes_seq().len() as int,
            ) && sorted@[i].text@.len() <= max_text_len(old_hyps) by {
                assert(sorted@.contains(sorted@[i]));
                assert(sorted@.to_multiset().count(sorted@[i]) > 0);
                assert(old_hyps.contains(sorted@[i]));
                let j = choose|j: int| 0 <= j < old_hyps.len() && old_hyps[j] == sorted@[i];
                lemma_max_text_len_index(old_hyps, j);
            }
        }
        let ghost full = sorted@;
        sorted.truncate(self.params.beam_size);
        proof {
            lemma_max_text_len_nonneg(old_hyps);
            lemma_max_text_len_le(sorted@, max_text_len(old_hyps));
            let bs = self.params.beam_size as int;
            let kept = full.take(bs);
            let disc = full.skip(bs);
            assert(sorted@ == kept);
            assert(kept + disc =~= full);
            lemma_multiset_commutative(kept, disc);
            assert forall|x: Hypothesis| #[trigger] kept.to_multiset().count(x)
                <= old_hyps.to_multiset().count(x) by {
                assert(full.to_multiset().count(x) == kept.to_multiset().count(x)
                    + disc.to_multiset().count(x));
            }
            assert(kept.to_multiset().subset_of(old_hyps.to_multiset()));
            assert forall|i: int, x: Hypothesis|
                0 <= i < kept.len() && #[trigger] old_hyps.to_multiset().count(x)
                    > kept.to_multiset().count(x) implies (#[trigger] kept[i]).cost <= x.cost by {
                assert(full.to_multiset().count(x) == kept.to_multiset().count(x)
                    + disc.to_multiset().count(x));
                assert(disc.to_multiset().count(x) > 0);
                assert(disc.contains(x));
                let j = choose|j: int| 0 <= j < disc.len() && disc[j] == x;
                assert(full[bs + j] == x);
                assert(kept[i] == full[i]);
                assert(leq_cost()(full[i], full[bs + j]));
            }
        }
        self.hypotheses = sorted;
    }

    /// Advance every hypothesis along the classified element; the ones
    /// whose dot/dash sequence cannot extend to any known character
    /// are dropped. The new beam is the pruning of exactly the
    /// successor sequence `spec_on_expansion` describes.
    pub fn process_on_signal(&mut self, duration_us: u64)
        requires
            old(self).wf(),
        ensures
            final(self).wf(),
            final(self).hypotheses@.len() <= old(self).hypotheses@.len(),
            final(self).hypotheses@.len() <= old(self).params.beam_size,
            max_text_len(final(self).hypotheses@) <= max_text_len(old(self).hypotheses@),
            ({
                let succ = old(self).spec_on_expansion(old(self).hypotheses@, duration_us);
                &&& final(self).hypotheses@.len() == pruned_len(
                    succ.len() as int,
                    old(self).params.beam_size as int,
                )
                &&& final(self).hypotheses@.to_multiset().subset_of(succ.to_multiset())
                &&& (forall|i: int, x: Hypothesis|
                    0 <= i < final(self).hypotheses@.len() && #[trigger] succ.to_multiset().count(
                        x,
                    ) > final(self).hypotheses@.to_multiset().count(x)
                        ==> (#[trigger] final(self).hypotheses@[i]).cost <= x.cost)
            }),
            final(self).params == old(self).params,
            final(self).trie == old(self).trie,
            final(self).lm == old(self).lm,
            final(self).timing_tracker == old(self).timing_tracker,
            final(self).timing_model == old(self).timing_model,
    {
        let ghost old_hyps = self.hypotheses@;
        let ghost tlen = self.trie.nodes_seq().len() as int;
        let element = self.timing_model.classify_element_min_cost(duration_us);
        let costs = self.timing_model.element_costs(duration_us);
        let elem_cost: i64 = if costs[0].0 == element {
            costs[0].1
        } else {
            costs[1].1
        };
        proof {
            assert(elem_cost == self.timing_model.spec_element_cost(duration_us));
        }
        let mut new_hypotheses: Vec<Hypothesis> = Vec::new();
        proof {
            assert(old_hyps.take(0) =~= Seq::<Hypothesis>::empty());
        }
        let mut idx: usize = 0;
        while idx < self.hypotheses.len()
            invariant
                self.wf(),
                *self == *old(self),
                self.hypotheses@ == old_hyps,
                tlen == self.trie.nodes_seq().len() as int,
                elem_cost == self.timing_model.spec_element_cost(duration_us),
                element == self.timing_model.spec_classify_element(duration_us),
                idx <= old_hyps.len(),
                new_hypotheses@.len() <= idx,
                new_hypotheses@ == old(self).spec_on_expansion(
                    old_hyps.take(idx as int),
                    duration_us,
                ),
                forall|i: int|
                    0 <= i < new_hypotheses@.len() ==> (#[trigger] new_hypotheses@[i]).wf(tlen)
                        && new_hypotheses@[i].text@.len() <= max_text_len(old_hyps),
            decreases old_hyps.len() - idx,
        {
            proof {
                assert(old_hyps.take(idx as int + 1).drop_last() =~= old_hyps.take(idx as int));
                assert(old_hyps.take(idx as int + 1).last() == old_hyps[idx as int]);
            }
            let node = self.hypotheses[idx].trie_node;
            if let Some(next_node) = self.trie.transition(node, element) {
                let mut new_hyp = self.hypotheses[idx].fork();
                new_hyp.trie_node = next_node;
                new_hyp.cost = sat_add(new_hyp.cost, elem_cost);
                proof {
                    lemma_max_text_len_index(old_hyps, idx as int);
                    assert(old(self).spec_on_successor(old_hyps[idx as int], duration_us)
                        == Some(new_hyp));
                }
                new_hypotheses.push(new_hyp);
            } else {
                proof {
                    assert(old(self).spec_on_successor(old_hyps[idx as int], duration_us)
                        is None);
                }
            }
            idx = idx + 1;
        }
        proof {
            assert(old_hyps.take(old_hyps.len() as int) =~= old_hyps);
        }
        self.hypotheses = new_hypotheses;
        proof {
            lemma_max_text_len_nonneg(old_hyps);
            lemma_max_text_len_le(self.hypotheses@, max_text_len(old_hyps));
        }
        self.prune_beam();
    }

    /// Expand every hypothesis for a silence: stay in the character,
    /// complete it, complete it and start a new word, or hedge against
    /// a misread gap, depending on the classification. The new beam is
    /// the pruning of exactly the successor sequence that
    /// `spec_off_expansion` describes.
    pub fn process_off_signal(&mut self, duration_us: u64)
        requires
            old(self).wf(),
            duration_us <= crate::model::MAX_DURATION_US,
        ensures
            final(self).wf(),
            final(self).hypotheses@.len() <= old(self).params.beam_size,
            final(self).hypotheses@.len() <= 3 * old(self).hypotheses@.len(),
            max_text_len(final(self).hypotheses@) <= max_text_len(old(self).hypotheses@) + 2,
            exists|mid: Seq<Hypothesis>|
                #![trigger mid.to_multiset()]
                {
                    &&& old(self).spec_off_expansion(old(self).hypotheses@, mid, duration_us)
                    &&& final(self).hypotheses@.len() == pruned_len(
                        mid.len() as int,
                        old(self).params.beam_size as int,
                    )
                    &&& final(self).hypotheses@.to_multiset().subset_of(mid.to_multiset())
                    &&& (forall|i: int, x: Hypothesis|
                        0 <= i < final(self).hypotheses@.len()
                            && #[trigger] mid.to_multiset().count(x)
                            > final(self).hypotheses@.to_multiset().count(x)
                            ==> (#[trigger] final(self).hypotheses@[i]).cost <= x.cost)
                },
            final(self).params == old(self).params,
            final(self).trie == old(self).trie,
            final(self).lm == old(self).lm,
            final(self).timing_tracker == old(self).timing_tracker,
            final(self).timing_model == old(self).timing_model,
    {
        let ghost old_hyps = self.hypotheses@;
        let ghost tlen = self.trie.nodes_seq().len() as int;
        let gap_type = self.timing_model.classify_gap_min_cost(duration_us);
        let gap_costs = self.timing_model.gap_costs(duration_us);
        let intra_cost = gap_costs[0].1;
        let inter_cost = gap_costs[1].1;
        let word_cost = gap_costs[2].1;
        let chosen_cost: i64 = match gap_type {
            crate::types::GapType::IntraCharacter => intra_cost,
            crate::types::GapType::InterCharacter => inter_cost,
            crate::types::GapType::Word => word_cost,
        };

        // The late/long checks compare the gap against two and four
        // unit times, in log space.
        let us = if duration_us == 0 {
            1u64
        } else {
            duration_us
        };
        let lnd = crate::fixmath::ln_micros(us);
        let ln_t = self.timing_tracker.get_ln_t();
        let late_intra = lnd > ln_t + crate::fixmath::LN2_MILLI;
        let long_inter = lnd > ln_t + crate::fixmath::LN4_MILLI;

        let mut new_hypotheses: Vec<Hypothesis> = Vec::new();
        proof {
            assert(old_hyps.take(0) =~= Seq::<Hypothesis>::empty());
        }
        let mut idx: usize = 0;
        while idx < self.hypotheses.len()
            invariant
                self.wf(),
                *self == *old(self),
                self.hypotheses@ == old_hyps,
                tlen == self.trie.nodes_seq().len() as int,
                self.params.wf(),
                self.lm.wf(),
                duration_us <= crate::model::MAX_DURATION_US,
                gap_type == self.timing_model.spec_classify_gap(duration_us),
                intra_cost == self.timing_model.spec_intra_cost(duration_us),
                inter_cost == self.timing_model.spec_inter_cost(duration_us),
                word_cost == self.timing_model.spec_word_cost(duration_us),
                chosen_cost == (match gap_type {
                    crate::types::GapType::IntraCharacter => intra_cost,
                    crate::types::GapType::InterCharacter => inter_cost,
                    crate::types::GapType::Word => word_cost,
                }),
                late_intra == self.spec_late_intra(duration_us),
                long_inter == self.spec_long_inter(duration_us),
                idx <= old_hyps.len(),
                new_hypotheses@.len() <= 3 * idx,
                old(self).spec_off_expansion(
                    old_hyps.take(idx as int),
                    new_hypotheses@,
                    duration_us,
                ),
                forall|i: int|
                    0 <= i < new_hypotheses@.len() ==> (#[trigger] new_hypotheses@[i]).wf(tlen)
                        && new_hypotheses@[i].text@.len() <= max_text_len(old_hyps) + 2,
            decreases old_hyps.len() - idx,
        {
            proof {
                lemma_max_text_len_index(old_hyps, idx as int);
                assert(old_hyps.take(idx as int + 1).drop_last() =~= old_hyps.take(idx as int));
                assert(old_hyps.take(idx as int + 1).last() == old_hyps[idx as int]);
            }
            let ghost pre = new_hypotheses@;
            let ghost h = old_hyps[idx as int];
            match gap_type {
                crate::types::GapType::IntraCharacter => {
                    // Short gap: stay in the current character.
                    let mut new_hyp = self.hypotheses[idx].fork();
                    new_hyp.cost = sat_add(new_hyp.cost, chosen_cost);
                    if late_intra {
                        new_hyp.cost = sat_add(new_hyp.cost, self.params.late_intra_penalty);
                    }
                    proof {
                        assert(new_hyp == old(self).spec_intra_successor(h, duration_us));
                    }
                    new_hypotheses.push(new_hyp);
                },
                crate::types::GapType::InterCharacter => {
                    // Medium gap: complete the character without a
                    // space.
                    if let Some(ch) = self.trie.get_terminal(self.hypotheses[idx].trie_node) {
                        let mut new_hyp = self.hypotheses[idx].fork();
                        let lm_cost = weight_cost(
                            self.lm.get_cost(new_hyp.lm_context, ch),
                            self.params.lm_weight,
                        );
                        new_hyp.add_character(ch, lm_cost);
                        new_hyp.cost = sat_add(new_hyp.cost, chosen_cost);
                        proof {
                            assert(old(self).spec_emits(h, new_hyp, ch, inter_cost as int));
                        }
                        new_hypotheses.push(new_hyp);
                    }
                    // If the word is already long, also complete the
                    // character and insert a space.
                    if self.hypotheses[idx].pending_word_len > LONG_WORD_LENGTH_THRESHOLD {
                        if let Some(ch) = self.trie.get_terminal(self.hypotheses[idx].trie_node) {
                            let mut space_hyp = self.hypotheses[idx].fork();
                            let ch_cost = weight_cost(
                                self.lm.get_cost(space_hyp.lm_context, ch),
                                self.params.lm_weight,
                            );
                            space_hyp.add_character(ch, ch_cost);
                            let space_cost = weight_cost(
                                self.lm.get_cost(space_hyp.lm_context, 32),
                                self.params.lm_weight,
                            );
                            space_hyp.add_character(
                                32,
                                sat_add(space_cost, self.params.space_penalty),
                            );
                            space_hyp.cost = sat_add(space_hyp.cost, chosen_cost);
                            proof {
                                assert(old(self).spec_emits_space(
                                    h,
                                    space_hyp,
                                    ch,
                                    inter_cost as int,
                                    self.params.space_penalty as int,
                                ));
                            }
                            new_hypotheses.push(space_hyp);
                        }
                    }
                },
                crate::types::GapType::Word => {
                    // Long gap: complete the character and add a space.
                    if let Some(ch) = self.trie.get_terminal(self.hypotheses[idx].trie_node) {
                        let mut new_hyp = self.hypotheses[idx].fork();
                        let ch_cost = weight_cost(
                            self.lm.get_cost(new_hyp.lm_context, ch),
                            self.params.lm_weight,
                        );
                        new_hyp.add_character(ch, ch_cost);
                        let space_cost = weight_cost(
                            self.lm.get_cost(new_hyp.lm_context, 32),
                            self.params.lm_weight,
                        );
                        new_hyp.add_character(32, space_cost);
                        new_hyp.cost = sat_add(new_hyp.cost, chosen_cost);
                        proof {
                            assert(old(self).spec_emits_space(
                                h,
                                new_hyp,
                                ch,
                                word_cost as int,
                                0,
                            ));
                        }
                        new_hypotheses.push(new_hyp);
                    }
                },
            }
            // For an inter-character gap, also hedge against the gap
            // itself being misread: continue inside the character at
            // the intra cost.
            if matches!(gap_type, crate::types::GapType::InterCharacter) {
                let mut continue_hyp = self.hypotheses[idx].fork();
                continue_hyp.cost = sat_add(continue_hyp.cost, intra_cost);
                if long_inter {
                    continue_hyp.cost = sat_add(continue_hyp.cost, self.params.long_inter_penalty);
                }
                proof {
                    assert(continue_hyp == old(self).spec_hedge_successor(h, duration_us));
                }
                new_hypotheses.push(continue_hyp);
            }
            proof {
                let seg = new_hypotheses@.skip(pre.len() as int);
                assert(new_hypotheses@ =~= pre + seg);
                assert(old(self).spec_off_segment(h, seg, duration_us)) by {
                    match old(self).timing_model.spec_classify_gap(duration_us) {
                        crate::types::GapType::IntraCharacter => {
                            assert(seg =~= seq![
                                old(self).spec_intra_successor(h, duration_us),
                            ]);
                        },
                        crate::types::GapType::InterCharacter => {
                            if old(self).trie.terminal_spec(h.trie_node) is None {
                                assert(seg =~= seq![
                                    old(self).spec_hedge_successor(h, duration_us),
                                ]);
                            }
                        },
                        crate::types::GapType::Word => {},
                    }
                }
                assert(old(self).spec_off_expansion(
                    old_hyps.take(idx as int + 1),
                    new_hypotheses@,
                    duration_us,
                ));
            }
            idx = idx + 1;
        }
        proof {
            assert(old_hyps.take(old_hyps.len() as int) =~= old_hyps);
        }
        let ghost mid = new_hypotheses@;
        self.hypotheses = new_hypotheses;
        proof {
            lemma_max_text_len_nonneg(old_hyps);
            lemma_max_text_len_le(self.hypotheses@, max_text_len(old_hyps) + 2);
        }
        self.prune_beam();
        proof {
            assert(self.hypotheses@.to_multiset().subset_of(mid.to_multiset()));
        }
    }

    /// Fold a tone into the timing estimate and re-anchor the cost
    /// model; silences leave the estimate unchanged.
    pub fn update_timing(&mut self, signal: &crate::types::MorseSignal)
        requires
            old(self).wf(),
        ensures
            final(self).wf(),
            final(self).hypotheses@ == old(self).hypotheses@,
            final(self).params == old(self).params,
            final(self).trie == old(self).trie,
            final(self).lm == old(self).lm,
            signal.on ==> final(self).timing_tracker.ln_t_spec() == TimingTracker::spec_update(
                old(self).timing_tracker.ln_t_spec(),
                crate::fixmath::spec_ln_micros(crate::model::clamp1_spec(signal.micros) as int),
            ) && final(self).timing_model.ln_t_spec() == final(self).timing_tracker.ln_t_spec()
                && final(self).timing_model.gap_clusters == old(self).timing_model.gap_clusters,
            !signal.on ==> final(self).timing_tracker == old(self).timing_tracker,
            !signal.on ==> final(self).timing_model == old(self).timing_model,
    {
        if signal.on {
            self.timing_tracker.update_from_on_signal(signal.micros);
            self.timing_model = ProbabilisticTimingModel::from_tracker_and_clusters(
                &self.timing_tracker,
                self.timing_model.gap_clusters,
            );
        }
    }

    /// Complete the character every surviving hypothesis may be in the
    /// middle of, then return the hypothesis with the lowest cost; an
    /// empty beam yields the empty initial hypothesis. Each hypothesis
    /// is completed exactly as `spec_finalizes` says: terminal trie
    /// positions emit their character at its weighted language-model
    /// cost, the others stay untouched.
    pub fn finalize(&mut self) -> (best: Hypothesis)
        requires
            old(self).wf(),
        ensures
            final(self).wf(),
            final(self).hypotheses@.len() == old(self).hypotheses@.len(),
            forall|i: int|
                0 <= i < old(self).hypotheses@.len() ==> old(self).spec_finalizes(
                    #[trigger] old(self).hypotheses@[i],
                    final(self).hypotheses@[i],
                ),
            forall|i: int|
                0 <= i < best.text@.len() ==> is_text_char(#[trigger] best.text@[i]),
            best.text@.len() <= max_text_len(old(self).hypotheses@) + 1,
            old(self).hypotheses@.len() == 0 ==> best.text@.len() == 0 && best.cost == 0,
            forall|i: int|
                0 <= i < final(self).hypotheses@.len() ==> (#[trigger] final(self).hypotheses@[
                i]).cost >= best.cost,
            old(self).hypotheses@.len() > 0 ==> exists|i: int|
                0 <= i < final(self).hypotheses@.len() && final(self).hypotheses@[i] == best,
    {
        let ghost old_hyps = self.hypotheses@;
        let ghost tlen = self.trie.nodes_seq().len() as int;
        proof {
            lemma_max_text_len_nonneg(old_hyps);
            assert forall|i: int| 0 <= i < old_hyps.len() implies (#[trigger] old_hyps[i]).text@
                .len() <= max_text_len(old_hyps) by {
                lemma_max_text_len_index(old_hyps, i);
            }
        }
        let mut idx: usize = 0;
        while idx < self.hypotheses.len()
            invariant
                self.wf(),
                tlen == self.trie.nodes_seq().len() as int,
                self.hypotheses@.len() == old_hyps.len(),
                self.params == old(self).params,
                self.trie == old(self).trie,
                self.lm == old(self).lm,
                self.lm.wf(),
                idx <= old_hyps.len(),
                max_text_len(old_hyps) >= 0,
                forall|i: int|
                    0 <= i < self.hypotheses@.len() ==> (#[trigger] self.hypotheses@[i]).text@.len()
                        <= max_text_len(old_hyps) + 1,
                forall|i: int|
                    0 <= i < idx ==> old(self).spec_finalizes(
                        #[trigger] old_hyps[i],
                        self.hypotheses@[i],
                    ),
                forall|i: int|
                    idx <= i < self.hypotheses@.len() ==> #[trigger] self.hypotheses@[i]
                        == old_hyps[i],
            decreases old_hyps.len() - idx,
        {
            proof {
                lemma_max_text_len_index(old_hyps, idx as int);
            }
            if let Some(ch) = self.trie.get_terminal(self.hypotheses[idx].trie_node) {
                let mut nh = self.hypotheses[idx].fork();
                let lm_cost = weight_cost(
                    self.lm.get_cost(nh.lm_context, ch),
                    self.params.lm_weight,
                );
                nh.add_character(ch, lm_cost);
                proof {
                    assert(old(self).spec_emits(old_hyps[idx as int], nh, ch, 0));
                }
                self.hypotheses.set(idx, nh);
            }
            idx = idx + 1;
        }

        if self.hypotheses.len() == 0 {
            return Hypothesis::new();
        }
        let mut best = self.hypotheses[0].fork();
        let ghost besti: int = 0;
        let mut j: usize = 1;
        while j < self.hypotheses.len()
            invariant
                self.wf(),
                self.hypotheses@.len() == old_hyps.len(),
                max_text_len(old_hyps) >= 0,
                forall|i: int|
                    0 <= i < self.hypotheses@.len() ==> (#[trigger] self.hypotheses@[i]).text@.len()
                        <= max_text_len(old_hyps) + 1,
                forall|i: int|
                    0 <= i < old_hyps.len() ==> old(self).spec_finalizes(
                        #[trigger] old_hyps[i],
                        self.hypotheses@[i],
                    ),
                1 <= j <= self.hypotheses@.len(),
                0 <= besti < self.hypotheses@.len(),
                best == self.hypotheses@[besti],
                forall|i: int| 0 <= i < j ==> (#[trigger] self.hypotheses@[i]).cost >= best.cost,
            decreases self.hypotheses@.len() - j,
        {
            if self.hypotheses[j].cost <= best.cost {
                best = self.hypotheses[j].fork();
                proof {
                    besti = j as int;
                }
            }
            j = j + 1;
        }
        best
    }
}

} // verus!
