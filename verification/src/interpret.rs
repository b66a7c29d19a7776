//! The decoder entry point: batch warm-up, beam search over the
//! signals, and the confidence summary.

use vstd::prelude::*;
use vstd::string::StrSliceExecFns;
use crate::analysis::is_valid_on;
use crate::analysis::MorseTimings;
use crate::beam::lemma_max_text_len_nonneg;
use crate::beam::max_text_len;
use crate::beam::BeamSearchDecoder;
use crate::beam::BeamSearchParams;
use crate::model::MAX_DURATION_US;
use crate::model::NOISE_THRESHOLD_US;
use crate::text::count_nonspace;
use crate::text::is_text_char;
use crate::text::lemma_count_nonspace_le_len;
use crate::types::MorseInterpretParams;
use crate::types::MorseInterpretResult;
use crate::types::MorseSignal;

verus! {

/// A signal long enough to be processed at all.
pub open spec fn is_valid_signal(s: MorseSignal) -> bool {
    s.micros >= NOISE_THRESHOLD_US
}

/// How many of the first `k` signals survive the noise floor.
pub open spec fn spec_count_valid(sigs: Seq<MorseSignal>, k: int) -> int
    decreases k,
{
    if k <= 0 {
        0
    } else {
        spec_count_valid(sigs, k - 1) + if is_valid_signal(sigs[k - 1]) {
            1int
        } else {
            0int
        }
    }
}

/// The count of valid signals grows by steps of at most one.
pub proof fn lemma_count_valid_bounds(sigs: Seq<MorseSignal>, k: int)
    ensures
        0 <= spec_count_valid(sigs, k),
        k >= 0 ==> spec_count_valid(sigs, k) <= k,
        forall|j: int| 0 <= j <= k ==> #[trigger] spec_count_valid(sigs, j) <= spec_count_valid(
            sigs,
            k,
        ),
    decreases k,
{
    if k > 0 {
        lemma_count_valid_bounds(sigs, k - 1);
    }
}

/// Two signal streams that agree on their first `k` entries count the
/// same number of valid signals among them.
proof fn lemma_count_valid_agree(s1: Seq<MorseSignal>, s2: Seq<MorseSignal>, k: int)
    requires
        forall|j: int| 0 <= j < k ==> #[trigger] s1[j] == s2[j],
        k <= s1.len(),
        k <= s2.len(),
    ensures
        spec_count_valid(s1, k) == spec_count_valid(s2, k),
    decreases k,
{
    if k > 0 {
        lemma_count_valid_agree(s1, s2, k - 1);
    }
}

/// Noise robustness: a signal below the noise floor is invisible.
/// Inserting one anywhere into a stream changes neither the tone nor
/// the silence samples that the timing warm-up sees, nor the number of
/// signals that count as processed.
pub proof fn lemma_noise_invisible(sigs: Seq<MorseSignal>, i: int, noise: MorseSignal)
    requires
        0 <= i <= sigs.len(),
        noise.micros < NOISE_THRESHOLD_US,
    ensures
        crate::analysis::spec_on_durations(sigs.insert(i, noise)) == crate::analysis::spec_on_durations(sigs),
        crate::analysis::spec_off_durations(sigs.insert(i, noise)) == crate::analysis::spec_off_durations(sigs),
        spec_count_valid(sigs.insert(i, noise), sigs.len() as int + 1) == spec_count_valid(
            sigs,
            sigs.len() as int,
        ),
    decreases sigs.len() - i,
{
    let new = sigs.insert(i, noise);
    sigs.insert_ensures(i, noise);
    if i == sigs.len() {
        assert(new.drop_last() =~= sigs);
        assert(new.last() == noise);
        assert(spec_count_valid(new, sigs.len() as int + 1) == spec_count_valid(new, sigs.len() as int));
        lemma_count_valid_agree(new, sigs, sigs.len() as int);
    } else {
        assert(new.last() == sigs.last());
        assert(new.drop_last() =~= sigs.drop_last().insert(i, noise));
        lemma_noise_invisible(sigs.drop_last(), i, noise);
        // The processed count: peel the last element off both sides.
        assert(spec_count_valid(new, sigs.len() as int + 1) == spec_count_valid(new, sigs.len() as int)
            + (if is_valid_signal(sigs.last()) {
            1int
        } else {
            0int
        }));
        lemma_count_valid_agree(new, new.drop_last(), sigs.len() as int);
        lemma_count_valid_agree(sigs, sigs.drop_last(), sigs.len() - 1);
    }
}

/// The confidence score, in thousandths: a piecewise-linear function
/// of the average cost per emitted character (in millinats). Negative
/// averages (strong language-model agreement) score near one; the
/// bands up to three and eight nats taper off; anything beyond decays
/// to zero. This is a heuristic summary, not a probability. Costs and
/// lengths at the very edge of the representation are clipped by one
/// unit first.
pub open spec fn spec_confidence(cost: int, len: int) -> int
    recommends
        len >= 1,
{
    let c = if cost < -0x7fff_ffff_ffff_ffff {
        -0x7fff_ffff_ffff_ffffint
    } else {
        cost
    };
    let l = if len > 0x7fff_ffff_ffff_ffff {
        0x7fff_ffff_ffff_ffffint
    } else {
        len
    };
    if c < 0 {
        let avg_neg = (-c) / l;
        950 + (if avg_neg >= 10_000 {
            50int
        } else {
            avg_neg * 5 / 1000
        })
    } else {
        let avg = c / l;
        if avg <= 3000 {
            950 - avg * 33 / 1000
        } else if avg <= 8000 {
            850 - (avg - 3000) * 20 / 1000
        } else if avg >= 78_000 {
            0
        } else {
            700 - (avg - 8000) / 100
        }
    }
}

/// The confidence score stays between zero and one thousand.
pub proof fn lemma_confidence_range(cost: int, len: int)
    requires
        len >= 1,
    ensures
        0 <= spec_confidence(cost, len) <= 1000,
{
    let c = if cost < -0x7fff_ffff_ffff_ffff {
        -0x7fff_ffff_ffff_ffffint
    } else {
        cost
    };
    let l = if len > 0x7fff_ffff_ffff_ffff {
        0x7fff_ffff_ffff_ffffint
    } else {
        len
    };
    if c < 0 {
        let avg_neg = (-c) / l;
        vstd::arithmetic::div_mod::lemma_div_pos_is_pos(-c, l);
        if avg_neg < 10_000 {
            assert(0 <= avg_neg * 5 / 1000 <= 50) by {
                vstd::arithmetic::div_mod::lemma_div_pos_is_pos(avg_neg * 5, 1000);
                vstd::arithmetic::div_mod::lemma_div_is_ordered(avg_neg * 5, 9999 * 5int, 1000);
            }
        }
    } else {
        let avg = c / l;
        vstd::arithmetic::div_mod::lemma_div_pos_is_pos(c, l);
        if avg <= 3000 {
            assert(0 <= avg * 33 / 1000 <= 99) by {
                vstd::arithmetic::div_mod::lemma_div_pos_is_pos(avg * 33, 1000);
                vstd::arithmetic::div_mod::lemma_div_is_ordered(avg * 33, 3000 * 33int, 1000);
            }
        } else if avg <= 8000 {
            assert(0 <= (avg - 3000) * 20 / 1000 <= 100) by {
                vstd::arithmetic::div_mod::lemma_div_pos_is_pos((avg - 3000) * 20, 1000);
                vstd::arithmetic::div_mod::lemma_div_is_ordered((avg - 3000) * 20, 5000 * 20int, 1000);
            }
        } else if avg < 78_000 {
            assert(0 <= (avg - 8000) / 100 <= 700) by {
                vstd::arithmetic::div_mod::lemma_div_pos_is_pos(avg - 8000, 100);
                vstd::arithmetic::div_mod::lemma_div_is_ordered(avg - 8000, 70_000, 100);
            }
        }
    }
}

/// Compute the confidence score for a decoded text.
fn confidence_score(cost: i64, len: usize) -> (c: u32)
    requires
        1 <= len,
    ensures
        c == spec_confidence(cost as int, len as int),
        c <= 1000,
{
    proof {
        lemma_confidence_range(cost as int, len as int);
    }
    let cc: i64 = if cost == i64::MIN {
        i64::MIN + 1
    } else {
        cost
    };
    let l: i64 = if (len as u64) > 0x7fff_ffff_ffff_ffffu64 {
        i64::MAX
    } else {
        len as i64
    };
    if cc < 0 {
        let avg_neg = (-cc) / l;
        if avg_neg >= 10_000 {
            1000
        } else {
            proof {
                vstd::arithmetic::div_mod::lemma_div_pos_is_pos(-cc as int, l as int);
                vstd::arithmetic::div_mod::lemma_div_pos_is_pos((avg_neg as int) * 5, 1000);
                vstd::arithmetic::div_mod::lemma_div_is_ordered((avg_neg as int) * 5, 9999 * 5int, 1000);
            }
            (950 + avg_neg * 5 / 1000) as u32
        }
    } else {
        let avg = cc / l;
        proof {
            vstd::arithmetic::div_mod::lemma_div_pos_is_pos(cc as int, l as int);
        }
        if avg <= 3000 {
            proof {
                vstd::arithmetic::div_mod::lemma_div_pos_is_pos((avg as int) * 33, 1000);
                vstd::arithmetic::div_mod::lemma_div_is_ordered((avg as int) * 33, 3000 * 33int, 1000);
            }
            (950 - avg * 33 / 1000) as u32
        } else if avg <= 8000 {
            proof {
                vstd::arithmetic::div_mod::lemma_div_pos_is_pos(((avg as int) - 3000) * 20, 1000);
                vstd::arithmetic::div_mod::lemma_div_is_ordered(
                    ((avg as int) - 3000) * 20,
                    5000 * 20int,
                    1000,
                );
            }
            (850 - (avg - 3000) * 20 / 1000) as u32
        } else if avg >= 78_000 {
            0
        } else {
            proof {
                vstd::arithmetic::div_mod::lemma_div_pos_is_pos((avg as int) - 8000, 100);
                vstd::arithmetic::div_mod::lemma_div_is_ordered((avg as int) - 8000, 70_000, 100);
            }
            (700 - (avg - 8000) / 100) as u32
        }
    }
}

/// The number of processed signals a result reports: the number of
/// valid signals, held at the counter's ceiling for absurdly long
/// streams.
pub open spec fn spec_processed(sigs: Seq<MorseSignal>) -> int {
    if spec_count_valid(sigs, sigs.len() as int) > i32::MAX as int {
        i32::MAX as int
    } else {
        spec_count_valid(sigs, sigs.len() as int)
    }
}

/// The number of non-space characters a result reports: the true
/// count, held at the counter's ceiling if the text were ever that
/// long.
pub open spec fn spec_patterns(text: Seq<char>) -> int {
    if count_nonspace(text) > i32::MAX as int {
        i32::MAX as int
    } else {
        count_nonspace(text)
    }
}

/// Count the non-space characters of a decoded text.
fn count_patterns(text: &String) -> (r: i32)
    ensures
        r as int == spec_patterns(text@),
        r >= 0,
{
    let n = text.as_str().unicode_len();
    let mut cnt: i32 = 0;
    let mut i: usize = 0;
    while i < n
        invariant
            n == text@.len(),
            i <= n,
            cnt as int == spec_patterns(text@.take(i as int)),
            0 <= cnt,
        decreases n - i,
    {
        let c = text.as_str().get_char(i);
        proof {
            assert(text@.take(i as int + 1).drop_last() =~= text@.take(i as int));
            assert(text@.take(i as int + 1).last() == text@[i as int]);
            lemma_count_nonspace_le_len(text@.take(i as int));
        }
        if c != ' ' {
            if cnt < i32::MAX {
                cnt = cnt + 1;
            }
        }
        i = i + 1;
    }
    proof {
        assert(text@.take(text@.len() as int) =~= text@);
    }
    cnt
}

/// Decode a signal stream with the beam search: adapt the timing on
/// every tone, expand and prune the beam on every signal, and return
/// the cheapest completed hypothesis with its confidence. Signals
/// below the noise floor are skipped entirely; the loop stops early
/// once any hypothesis has emitted `max_output_length` characters.
pub fn parse_morse_signals_beam_search(
    signals: &Vec<MorseSignal>,
    timings: &MorseTimings,
    max_output_length: usize,
) -> (r: MorseInterpretResult)
    requires
        timings.wf(),
    ensures
        r.confidence <= 1000,
        forall|i: int| 0 <= i < r.text@.len() ==> is_text_char(#[trigger] r.text@[i]),
        r.text@.len() == 0 ==> r.confidence == 0,
        r.patterns_recognized as int == spec_patterns(r.text@),
        0 <= r.signals_processed,
        r.signals_processed as int <= spec_count_valid(signals@, signals@.len() as int),
        max_output_length > 2 * signals@.len() + 1 ==> r.signals_processed as int
            == spec_processed(signals@),
        r.text@.len() <= max_output_length + 3,
        signals@.len() == 0 ==> r.text@.len() == 0 && r.confidence == 0 && r.signals_processed
            == 0 && r.patterns_recognized == 0,
{
    if signals.len() == 0 {
        return MorseInterpretResult {
            text: String::new(),
            confidence: 0,
            signals_processed: 0,
            patterns_recognized: 0,
        };
    }
    let params = BeamSearchParams::default();
    let mut decoder = BeamSearchDecoder::new(timings, params);
    let mut processed: i32 = 0;
    let ghost cap: int = if max_output_length >= 1 {
        max_output_length - 1
    } else {
        0int
    };

    proof {
        crate::beam::lemma_max_text_len_le(decoder.hypotheses@, 0);
    }
    let mut k: usize = 0;
    while k < signals.len()
        invariant_except_break
            decoder.wf(),
            k <= signals@.len(),
            0 <= processed as int,
            processed as int <= spec_count_valid(signals@, k as int),
            processed as int == (if spec_count_valid(signals@, k as int) > i32::MAX as int {
                i32::MAX as int
            } else {
                spec_count_valid(signals@, k as int)
            }),
            cap == (if max_output_length >= 1 {
                max_output_length - 1
            } else {
                0int
            }),
            max_text_len(decoder.hypotheses@) <= cap,
            max_text_len(decoder.hypotheses@) <= 2 * spec_count_valid(signals@, k as int),
        ensures
            decoder.wf(),
            0 <= processed as int,
            processed as int <= spec_count_valid(signals@, signals@.len() as int),
            max_output_length > 2 * signals@.len() + 1 ==> processed as int == spec_processed(
                signals@,
            ),
            max_text_len(decoder.hypotheses@) <= cap + 2,
        decreases signals@.len() - k,
    {
        let signal = signals[k];
        proof {
            lemma_count_valid_bounds(signals@, signals@.len() as int);
        }
        if signal.micros >= NOISE_THRESHOLD_US {
            let clamped = if signal.micros > MAX_DURATION_US {
                MAX_DURATION_US
            } else {
                signal.micros
            };
            decoder.update_timing(&signal);
            if signal.on {
                decoder.process_on_signal(signal.micros);
            } else {
                decoder.process_off_signal(clamped);
            }

            // Stop once any hypothesis has reached the output cap.
            let mut over = false;
            let mut h: usize = 0;
            while h < decoder.hypotheses.len()
                invariant
                    h <= decoder.hypotheses@.len(),
                    !over ==> forall|j: int|
                        0 <= j < h ==> (#[trigger] decoder.hypotheses@[j]).text@.len()
                            < max_output_length,
                    over ==> exists|j: int|
                        0 <= j < decoder.hypotheses@.len() && (
                        #[trigger] decoder.hypotheses@[j]).text@.len() >= max_output_length,
                decreases decoder.hypotheses@.len() - h,
            {
                if decoder.hypotheses[h].text.as_str().unicode_len() >= max_output_length {
                    over = true;
                }
                h = h + 1;
            }
            if over {
                proof {
                    // The cap can only have been reached if it was
                    // within reach of the signals seen so far.
                    let j = choose|j: int|
                        0 <= j < decoder.hypotheses@.len() && (
                        #[trigger] decoder.hypotheses@[j]).text@.len() >= max_output_length;
                    crate::beam::lemma_max_text_len_index(decoder.hypotheses@, j);
                    lemma_count_valid_bounds(signals@, k as int + 1);
                    assert(!(max_output_length > 2 * signals@.len() + 1));
                }
                break ;
            }
            proof {
                lemma_max_text_len_nonneg(decoder.hypotheses@);
                if decoder.hypotheses@.len() > 0 {
                    assert(max_output_length >= 1);
                    crate::beam::lemma_max_text_len_le(decoder.hypotheses@, cap);
                }
            }
            if processed < i32::MAX {
                processed = processed + 1;
            }
        }
        k = k + 1;
    }

    let best = decoder.finalize();
    let text_len = best.text.as_str().unicode_len();
    let confidence: u32 = if text_len > 0 {
        confidence_score(best.cost, text_len)
    } else {
        0
    };
    let patterns_recognized = count_patterns(&best.text);
    MorseInterpretResult {
        text: best.text,
        confidence,
        signals_processed: processed,
        patterns_recognized,
    }
}

/// Decode a Morse signal stream into text.
///
/// An empty stream succeeds trivially with an empty result. A stream
/// in which no tone survives the noise floor is the single hard
/// failure; everything else degrades gracefully.
pub fn morse_interpret(signals: &Vec<MorseSignal>, params: &MorseInterpretParams) -> (r: Result<
    MorseInterpretResult,
    String,
>)
    ensures
        signals@.len() == 0 ==> (r matches Ok(out) && out.text@.len() == 0 && out.confidence == 0
            && out.signals_processed == 0 && out.patterns_recognized == 0),
        (r is Err) <==> (signals@.len() > 0 && (forall|i: int|
            0 <= i < signals@.len() ==> !is_valid_on(#[trigger] signals@[i]))),
        r matches Err(m) ==> m@ == "No valid on signals found"@,
        r matches Ok(out) ==> {
            &&& out.confidence <= 1000
            &&& (forall|i: int| 0 <= i < out.text@.len() ==> is_text_char(#[trigger] out.text@[i]))
            &&& (out.text@.len() == 0 ==> out.confidence == 0)
            &&& out.patterns_recognized as int == spec_patterns(out.text@)
            &&& 0 <= out.signals_processed
            &&& out.signals_processed as int <= spec_count_valid(signals@, signals@.len() as int)
            &&& (params.max_output_length > 2 * signals@.len() + 1 ==> out.signals_processed as int
                == spec_processed(signals@))
            &&& (params.max_output_length >= 0 ==> out.text@.len() <= params.max_output_length + 3)
        },
{
    if signals.len() == 0 {
        return Ok(
            MorseInterpretResult {
                text: String::new(),
                confidence: 0,
                signals_processed: 0,
                patterns_recognized: 0,
            },
        );
    }

    let timings = match MorseTimings::from_signals(signals) {
        Ok(t) => t,
        Err(e) => {
            return Err(e);
        },
    };

    let eff_max: usize = if params.max_output_length < 0 {
        usize::MAX
    } else {
        params.max_output_length as usize
    };
    Ok(parse_morse_signals_beam_search(signals, &timings, eff_max))
}

} // verus!
