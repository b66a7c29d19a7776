//! Text-to-timing generation: turn text into dot, dash and gap
//! elements with ITU spacing, optionally jittered to mimic a human
//! hand.

use vstd::prelude::*;
use vstd::string::StringExecFns;
use vstd::string::StringSliceAdditionalSpecFns;
use crate::patterns::get_morse_pattern;
use crate::patterns::has_pattern;
use crate::patterns::lemma_pattern_wf;
use crate::patterns::pattern_spec;
use crate::rng::spec_lcg;
use crate::rng::spec_rand16;
use crate::rng::SimpleRng;
use crate::types::MorseElement;
use crate::types::MorseElementType;
use crate::types::MorseTimingParams;

verus! {

/// The dot duration for a speed in words per minute: the standard ITU
/// formula of 1.2 seconds over the speed, in microseconds.
pub open spec fn spec_dot_us(wpm: i32) -> int
    recommends
        wpm > 0,
{
    1_200_000int / (wpm as int)
}

/// The inter-word gap: seven dots, stretched by the word-gap factor.
pub open spec fn spec_word_gap_us(dot_us: int, word_gap_permille: u32) -> int {
    dot_us * 7 * (word_gap_permille as int) / 1000
}

/// What one humanization draw does to a base duration: the sample
/// (a value in `[0, 65536)`) sways the duration by up to three tenths
/// of the humanization factor in either direction, and the result is
/// clamped between one tenth and thirteen tenths of the base.
#[verifier::opaque]
pub open spec fn spec_humanize(base: int, factor: u32, rand: int) -> int {
    let h = if factor > 1000 {
        1000int
    } else {
        factor as int
    };
    let maxvar = base * h * 3 / 10000;
    let variation = if rand >= 32768 {
        (rand - 32768) * 2 * maxvar / 65536
    } else {
        -((32768 - rand) * 2 * maxvar / 65536)
    };
    let res = base + variation;
    let lo = base / 10;
    let hi = base * 13 / 10;
    if res < lo {
        lo
    } else if res > hi {
        hi
    } else {
        res
    }
}

/// Ceiling on generated base durations, far above any real signal.
pub const BASE_DURATION_CAP_US: u64 = 40_000_000_000_000;

/// The humanization clamp band: a jittered duration always stays
/// between one tenth and thirteen tenths of its base duration.
pub open spec fn in_clamp_band(d: u64, base: int) -> bool {
    base / 10 <= d <= base * 13 / 10
}

/// Jitter a base duration. With a zero factor or no generator the
/// duration is returned unchanged; otherwise one sample is drawn and
/// the result follows `spec_humanize` exactly.
#[verifier::rlimit(50)]
pub fn apply_humanization(base_duration: u64, factor: u32, rng: &mut Option<SimpleRng>) -> (r: u64)
    requires
        base_duration <= BASE_DURATION_CAP_US,
    ensures
        r <= 52_000_000_000_000u64,
        in_clamp_band(r, base_duration as int),
        factor == 0 ==> r == base_duration && *final(rng) == *old(rng),
        factor > 0 ==> match *old(rng) {
            None => r == base_duration && (*final(rng)) is None,
            Some(g) => (*final(rng)) matches Some(g2) && g2.state_spec() == spec_lcg(g.state_spec())
                && r == spec_humanize(base_duration as int, factor, spec_rand16(g.state_spec())),
        },
{
    proof {
        // The base duration itself lies inside its own clamp band.
        vstd::arithmetic::div_mod::lemma_div_multiples_vanish(base_duration as int, 10);
        vstd::arithmetic::div_mod::lemma_div_is_ordered(
            base_duration as int,
            (base_duration as int) * 10,
            10,
        );
        vstd::arithmetic::div_mod::lemma_div_is_ordered(
            (base_duration as int) * 10,
            (base_duration as int) * 13,
            10,
        );
    }
    if factor == 0 {
        return base_duration;
    }
    match rng {
        None => base_duration,
        Some(g) => {
            let rand = g.next_raw();
            let h: u64 = if factor > 1000 {
                1000
            } else {
                factor as u64
            };
            proof {
                vstd::arithmetic::mul::lemma_mul_upper_bound(
                    base_duration as int,
                    BASE_DURATION_CAP_US as int,
                    h as int,
                    1000,
                );
            }
            let maxvar: u64 = base_duration * h * 3 / 10000;
            proof {
                vstd::arithmetic::div_mod::lemma_div_is_ordered(
                    (base_duration as int) * (h as int) * 3,
                    (BASE_DURATION_CAP_US as int) * 1000 * 3,
                    10000,
                );
                assert(maxvar <= 12_000_000_000_000u64);
                if rand >= 32768 {
                    vstd::arithmetic::mul::lemma_mul_upper_bound(
                        ((rand - 32768) as int) * 2,
                        65534,
                        maxvar as int,
                        12_000_000_000_000,
                    );
                    vstd::arithmetic::div_mod::lemma_div_is_ordered(
                        ((rand - 32768) as int) * 2 * (maxvar as int),
                        65534 * 12_000_000_000_000int,
                        65536,
                    );
                    vstd::arithmetic::div_mod::lemma_div_pos_is_pos(
                        ((rand - 32768) as int) * 2 * (maxvar as int),
                        65536,
                    );
                } else {
                    vstd::arithmetic::mul::lemma_mul_upper_bound(
                        ((32768 - rand) as int) * 2,
                        65536,
                        maxvar as int,
                        12_000_000_000_000,
                    );
                    vstd::arithmetic::div_mod::lemma_div_is_ordered(
                        ((32768 - rand) as int) * 2 * (maxvar as int),
                        65536 * 12_000_000_000_000int,
                        65536,
                    );
                    vstd::arithmetic::div_mod::lemma_div_pos_is_pos(
                        ((32768 - rand) as int) * 2 * (maxvar as int),
                        65536,
                    );
                }
            }
            let variation: i64 = if rand >= 32768 {
                ((((rand - 32768) as u64) * 2 * maxvar) / 65536) as i64
            } else {
                -(((((32768 - rand) as u64) * 2 * maxvar) / 65536) as i64)
            };
            let res: i64 = (base_duration as i64) + variation;
            let lo: i64 = (base_duration / 10) as i64;
            let hi: i64 = (base_duration * 13 / 10) as i64;
            let out: i64 = if res < lo {
                lo
            } else if res > hi {
                hi
            } else {
                res
            };
            proof {
                reveal(spec_humanize);
            }
            out as u64
        },
    }
}

/// What a generated element's duration may be. With no jitter the
/// durations are exact: one unit for a dot, three for a dash, and one,
/// three or a word gap for silences. With jitter every duration stays
/// inside the clamp band of one of the base durations its kind allows.
pub open spec fn element_timing_ok(e: MorseElement, dot: int, word: int, factor: u32) -> bool {
    if factor == 0 {
        match e.element_type {
            MorseElementType::Dot => e.duration_micros == dot,
            MorseElementType::Dash => e.duration_micros == 3 * dot,
            MorseElementType::Gap => e.duration_micros == dot || e.duration_micros == 3 * dot
                || e.duration_micros == word,
        }
    } else {
        match e.element_type {
            MorseElementType::Dot => in_clamp_band(e.duration_micros, dot),
            MorseElementType::Dash => in_clamp_band(e.duration_micros, 3 * dot),
            MorseElementType::Gap => in_clamp_band(e.duration_micros, dot) || in_clamp_band(
                e.duration_micros,
                3 * dot,
            ) || in_clamp_band(e.duration_micros, word),
        }
    }
}

/// Whether the next character needs a separating gap: the sequence so
/// far ends in a tone.
pub open spec fn needs_sep_state(s: Seq<MorseElement>) -> bool {
    s.len() > 0 && s.last().element_type != MorseElementType::Gap
}

/// The element kinds of a generated sequence, without the durations.
pub open spec fn kinds_of(s: Seq<MorseElement>) -> Seq<MorseElementType> {
    Seq::new(s.len(), |i: int| s[i].element_type)
}

/// A pattern with a one-unit gap between consecutive elements.
pub open spec fn interleaved(p: Seq<MorseElementType>) -> Seq<MorseElementType>
    decreases p.len(),
{
    if p.len() <= 1 {
        p
    } else {
        interleaved(p.drop_last()) + seq![MorseElementType::Gap, p.last()]
    }
}

/// The index of the closing bracket that ends a prosign opened just
/// before byte `j`, or the text's end if none follows.
pub open spec fn close_idx(bytes: Seq<u8>, j: int) -> int
    decreases bytes.len() - j,
{
    if j < 0 || j >= bytes.len() {
        bytes.len() as int
    } else if bytes[j] == 93 {
        j
    } else {
        close_idx(bytes, j + 1)
    }
}

/// The closing index lies between its start and the text's end, marks a
/// closing bracket when it is inside the text, and nothing before it is
/// one.
pub proof fn lemma_close_idx(bytes: Seq<u8>, j: int)
    requires
        0 <= j <= bytes.len(),
    ensures
        j <= close_idx(bytes, j) <= bytes.len(),
        close_idx(bytes, j) < bytes.len() ==> bytes[close_idx(bytes, j)] == 93,
        forall|k: int| j <= k < close_idx(bytes, j) ==> bytes[k] != 93,
    decreases bytes.len() - j,
{
    if j < bytes.len() && bytes[j] != 93 {
        lemma_close_idx(bytes, j + 1);
    }
}

/// The element kinds of a prosign's interior, from byte `j` up to the
/// closing bracket at `close`: each table character's interleaved
/// pattern, with a single one-unit gap between consecutive characters
/// (`started` records whether one was already emitted), and spaces and
/// unknown characters skipped.
pub open spec fn prosign_kinds(bytes: Seq<u8>, j: int, close: int, started: bool) -> Seq<
    MorseElementType,
>
    decreases close - j,
{
    if j < 0 || j >= close || close > bytes.len() {
        Seq::empty()
    } else {
        let ch = bytes[j];
        if ch != 32 && has_pattern(ch) {
            (if started {
                seq![MorseElementType::Gap]
            } else {
                Seq::empty()
            }) + interleaved(pattern_spec(ch).unwrap()) + prosign_kinds(bytes, j + 1, close, true)
        } else {
            prosign_kinds(bytes, j + 1, close, started)
        }
    }
}

/// The element kinds generated for a text, reading from byte `i` on:
/// spaces become single gaps, each table character becomes its
/// interleaved pattern with a separating gap when a tone precedes it, a
/// bracketed prosign becomes its characters' patterns joined by
/// one-unit gaps (with no separating gap before it), and other
/// characters disappear.
pub open spec fn gen_kinds(bytes: Seq<u8>, i: int, needs_sep: bool) -> Seq<MorseElementType>
    decreases bytes.len() - i,
{
    if i < 0 || i >= bytes.len() {
        Seq::empty()
    } else {
        let ch = bytes[i];
        if ch == 32 {
            seq![MorseElementType::Gap] + gen_kinds(bytes, i + 1, false)
        } else if ch == 91 {
            let close = close_idx(bytes, i + 1);
            let stop = if close < bytes.len() {
                close + 1
            } else {
                bytes.len() as int
            };
            let next_i = if stop < i + 1 {
                i + 1
            } else {
                stop
            };
            let pk = prosign_kinds(bytes, i + 1, close, false);
            pk + gen_kinds(
                bytes,
                next_i,
                if pk.len() > 0 {
                    true
                } else {
                    needs_sep
                },
            )
        } else if has_pattern(ch) {
            (if needs_sep {
                seq![MorseElementType::Gap]
            } else {
                Seq::empty()
            }) + interleaved(pattern_spec(ch).unwrap()) + gen_kinds(bytes, i + 1, true)
        } else {
            gen_kinds(bytes, i + 1, needs_sep)
        }
    }
}

/// One tone of a pattern, timed exactly: one unit for a dot, three for
/// a dash (a gap inside a pattern would be one unit, but the table
/// holds no gaps).
pub open spec fn tone_elem(k: MorseElementType, dot: int) -> MorseElement {
    match k {
        MorseElementType::Dash => MorseElement {
            element_type: k,
            duration_micros: (3 * dot) as u64,
        },
        _ => MorseElement { element_type: k, duration_micros: dot as u64 },
    }
}

/// A gap of the given exact duration.
pub open spec fn gap_elem(d: int) -> MorseElement {
    MorseElement { element_type: MorseElementType::Gap, duration_micros: d as u64 }
}

/// A pattern timed exactly, with a one-unit gap between consecutive
/// elements.
pub open spec fn interleaved_elems(p: Seq<MorseElementType>, dot: int) -> Seq<MorseElement>
    decreases p.len(),
{
    if p.len() == 0 {
        Seq::empty()
    } else if p.len() == 1 {
        seq![tone_elem(p[0], dot)]
    } else {
        interleaved_elems(p.drop_last(), dot) + seq![gap_elem(dot), tone_elem(p.last(), dot)]
    }
}

/// The exact timed elements generated for a text without prosign
/// brackets at zero jitter, reading from byte `i` on: every duration
/// is pinned — one unit for dots and for gaps inside a character,
/// three units for dashes and for gaps between characters, and the
/// stretched word gap for each space.
pub open spec fn gen_elems(bytes: Seq<u8>, i: int, needs_sep: bool, dot: int, word: int) -> Seq<
    MorseElement,
>
    decreases bytes.len() - i,
{
    if i < 0 || i >= bytes.len() {
        Seq::empty()
    } else {
        let ch = bytes[i];
        if ch == 32 {
            seq![gap_elem(word)] + gen_elems(bytes, i + 1, false, dot, word)
        } else if has_pattern(ch) {
            (if needs_sep {
                seq![gap_elem(3 * dot)]
            } else {
                Seq::empty()
            }) + interleaved_elems(pattern_spec(ch).unwrap(), dot) + gen_elems(
                bytes,
                i + 1,
                true,
                dot,
                word,
            )
        } else {
            gen_elems(bytes, i + 1, needs_sep, dot, word)
        }
    }
}

/// Append one character's pattern: its dots and dashes with one-unit
/// gaps between them.
#[verifier::rlimit(100)]
fn push_pattern(
    elements: &mut Vec<MorseElement>,
    pattern: &Vec<MorseElementType>,
    dot_us: u64,
    word_us: u64,
    factor: u32,
    rng: &mut Option<SimpleRng>,
)
    requires
        1 <= dot_us <= 1_200_000,
        word_us <= BASE_DURATION_CAP_US,
        forall|i: int|
            0 <= i < old(elements)@.len() ==> element_timing_ok(
                #[trigger] old(elements)@[i],
                dot_us as int,
                word_us as int,
                factor,
            ),
    ensures
        final(elements)@.len() >= old(elements)@.len(),
        forall|i: int|
            0 <= i < final(elements)@.len() ==> element_timing_ok(
                #[trigger] final(elements)@[i],
                dot_us as int,
                word_us as int,
                factor,
            ),
        pattern@.len() >= 1 ==> final(elements)@.len() > 0 && final(elements)@.last().element_type
            == pattern@[pattern@.len() - 1],
        kinds_of(final(elements)@) == kinds_of(old(elements)@) + interleaved(pattern@),
        factor == 0 ==> final(elements)@ == old(elements)@ + interleaved_elems(
            pattern@,
            dot_us as int,
        ),
{
    proof {
        assert(kinds_of(elements@) =~= kinds_of(old(elements)@) + interleaved(pattern@.take(0)));
        assert(elements@ =~= old(elements)@ + interleaved_elems(pattern@.take(0), dot_us as int));
    }
    let mut j: usize = 0;
    while j < pattern.len()
        invariant
            1 <= dot_us <= 1_200_000,
            word_us <= BASE_DURATION_CAP_US,
            j <= pattern@.len(),
            forall|i: int|
                0 <= i < elements@.len() ==> element_timing_ok(
                    #[trigger] elements@[i],
                    dot_us as int,
                    word_us as int,
                    factor,
                ),
            elements@.len() >= old(elements)@.len(),
            j >= 1 && j == pattern@.len() ==> elements@.len() > 0 && elements@.last().element_type
                == pattern@[j - 1],
            kinds_of(elements@) == kinds_of(old(elements)@) + (if j == 0 {
                Seq::<MorseElementType>::empty()
            } else if j < pattern@.len() {
                interleaved(pattern@.take(j as int)).push(MorseElementType::Gap)
            } else {
                interleaved(pattern@)
            }),
            factor == 0 ==> elements@ == old(elements)@ + (if j == 0 {
                Seq::<MorseElement>::empty()
            } else if j < pattern@.len() {
                interleaved_elems(pattern@.take(j as int), dot_us as int).push(
                    gap_elem(dot_us as int),
                )
            } else {
                interleaved_elems(pattern@, dot_us as int)
            }),
        decreases pattern@.len() - j,
    {
        let ghost kinds_before = kinds_of(elements@);
        let ghost elems_before = elements@;
        let element_type = pattern[j];
        let base_duration: u64 = match element_type {
            MorseElementType::Dot => dot_us,
            MorseElementType::Dash => 3 * dot_us,
            MorseElementType::Gap => dot_us,
        };
        let duration = apply_humanization(base_duration, factor, rng);
        elements.push(MorseElement { element_type, duration_micros: duration });
        if j + 1 < pattern.len() {
            let gap_duration = apply_humanization(dot_us, factor, rng);
            elements.push(
                MorseElement { element_type: MorseElementType::Gap, duration_micros: gap_duration },
            );
            proof {
                assert(kinds_of(elements@) =~= kinds_before.push(element_type).push(
                    MorseElementType::Gap,
                ));
                if factor == 0 {
                    assert(elements@ =~= elems_before.push(
                        tone_elem(pattern@[j as int], dot_us as int),
                    ).push(gap_elem(dot_us as int)));
                }
            }
        } else {
            proof {
                assert(kinds_of(elements@) =~= kinds_before.push(element_type));
                if factor == 0 {
                    assert(elements@ =~= elems_before.push(
                        tone_elem(pattern@[j as int], dot_us as int),
                    ));
                }
            }
        }
        proof {
            lemma_kinds_step(old(elements)@, pattern@, j as int);
            if factor == 0 {
                lemma_elems_step(old(elements)@, pattern@, j as int, dot_us as int);
            }
        }
        j = j + 1;
    }
    proof {
        assert(pattern@.take(pattern@.len() as int) =~= pattern@);
    }
}

/// One loop step of `push_pattern` keeps the exact-element accumulator
/// in shape at zero jitter, mirroring the kinds accumulator.
proof fn lemma_elems_step(base: Seq<MorseElement>, p: Seq<MorseElementType>, j: int, dot: int)
    requires
        0 <= j < p.len(),
    ensures
        j + 1 < p.len() ==> (base + (if j == 0 {
            Seq::<MorseElement>::empty()
        } else {
            interleaved_elems(p.take(j), dot).push(gap_elem(dot))
        })).push(tone_elem(p[j], dot)).push(gap_elem(dot)) == base + interleaved_elems(
            p.take(j + 1),
            dot,
        ).push(gap_elem(dot)),
        j + 1 == p.len() ==> (base + (if j == 0 {
            Seq::<MorseElement>::empty()
        } else {
            interleaved_elems(p.take(j), dot).push(gap_elem(dot))
        })).push(tone_elem(p[j], dot)) == base + interleaved_elems(p, dot),
{
    if j == 0 {
        assert(p.take(1) =~= seq![p[0]]);
        assert(interleaved_elems(p.take(1), dot) == seq![tone_elem(p[0], dot)]);
        if j + 1 < p.len() {
            assert((base + Seq::<MorseElement>::empty()).push(tone_elem(p[0], dot)).push(
                gap_elem(dot),
            ) =~= base + interleaved_elems(p.take(1), dot).push(gap_elem(dot)));
        } else {
            assert(p.take(1) =~= p);
            assert((base + Seq::<MorseElement>::empty()).push(tone_elem(p[0], dot)) =~= base
                + interleaved_elems(p, dot));
        }
    } else {
        assert(p.take(j + 1).drop_last() =~= p.take(j));
        assert(p.take(j + 1).last() == p[j]);
        assert(interleaved_elems(p.take(j + 1), dot) == interleaved_elems(p.take(j), dot) + seq![
            gap_elem(dot),
            tone_elem(p[j], dot),
        ]);
        if j + 1 < p.len() {
            assert((base + interleaved_elems(p.take(j), dot).push(gap_elem(dot))).push(
                tone_elem(p[j], dot),
            ).push(gap_elem(dot)) =~= base + interleaved_elems(p.take(j + 1), dot).push(
                gap_elem(dot),
            ));
        } else {
            assert(p.take(j + 1) =~= p);
            assert((base + interleaved_elems(p.take(j), dot).push(gap_elem(dot))).push(
                tone_elem(p[j], dot),
            ) =~= base + interleaved_elems(p, dot));
        }
    }
}

/// One loop step of `push_pattern` keeps the kinds accumulator in
/// shape: appending the element (and a gap unless it was the last)
/// extends the interleaved prefix by one.
proof fn lemma_kinds_step(base: Seq<MorseElement>, p: Seq<MorseElementType>, j: int)
    requires
        0 <= j < p.len(),
    ensures
        j + 1 < p.len() ==> (kinds_of(base) + (if j == 0 {
            Seq::<MorseElementType>::empty()
        } else {
            interleaved(p.take(j)).push(MorseElementType::Gap)
        })).push(p[j]).push(MorseElementType::Gap) == kinds_of(base) + interleaved(
            p.take(j + 1),
        ).push(MorseElementType::Gap),
        j + 1 == p.len() ==> (kinds_of(base) + (if j == 0 {
            Seq::<MorseElementType>::empty()
        } else {
            interleaved(p.take(j)).push(MorseElementType::Gap)
        })).push(p[j]) == kinds_of(base) + interleaved(p),
{
    if j == 0 {
        assert(p.take(1) =~= seq![p[0]]);
        assert(interleaved(p.take(1)) == p.take(1));
        if j + 1 < p.len() {
            assert((kinds_of(base) + Seq::<MorseElementType>::empty()).push(p[0]).push(
                MorseElementType::Gap,
            ) =~= kinds_of(base) + interleaved(p.take(1)).push(MorseElementType::Gap));
        } else {
            assert(p.take(1) =~= p);
            assert((kinds_of(base) + Seq::<MorseElementType>::empty()).push(p[0]) =~= kinds_of(
                base,
            ) + interleaved(p));
        }
    } else {
        assert(p.take(j + 1).drop_last() =~= p.take(j));
        assert(p.take(j + 1).last() == p[j]);
        assert(interleaved(p.take(j + 1)) == interleaved(p.take(j)) + seq![
            MorseElementType::Gap,
            p[j],
        ]);
        if j + 1 < p.len() {
            assert((kinds_of(base) + interleaved(p.take(j)).push(MorseElementType::Gap)).push(
                p[j],
            ).push(MorseElementType::Gap) =~= kinds_of(base) + interleaved(p.take(j + 1)).push(
                MorseElementType::Gap,
            ));
        } else {
            assert(p.take(j + 1) =~= p);
            assert((kinds_of(base) + interleaved(p.take(j)).push(MorseElementType::Gap)).push(
                p[j],
            ) =~= kinds_of(base) + interleaved(p));
        }
    }
}

/// Generate the timed elements of a text: letters become their
/// dot/dash patterns with one-unit gaps inside a character and
/// three-unit gaps between characters; spaces become word gaps; text
/// inside square brackets is sent as a prosign, with only one-unit
/// gaps between its characters. Characters without a pattern are
/// skipped. Fails exactly when the speed is not positive. The sequence
/// of element kinds is pinned exactly by `gen_kinds`; at zero jitter
/// every duration of a text without prosign brackets is pinned too.
pub fn morse_timing(text: &str, params: &MorseTimingParams) -> (r: Result<Vec<MorseElement>, String>)
    ensures
        (r is Err) <==> params.wpm <= 0,
        r matches Err(m) ==> m@ == "Invalid WPM"@,
        r matches Ok(v) ==> forall|i: int|
            0 <= i < v@.len() ==> element_timing_ok(
                #[trigger] v@[i],
                spec_dot_us(params.wpm),
                spec_word_gap_us(spec_dot_us(params.wpm), params.word_gap_permille),
                params.humanization_permille,
            ),
        params.wpm <= 1_200_000 ==> (match r {
            Ok(v) => kinds_of(v@) == gen_kinds(text.spec_bytes(), 0, false),
            Err(_) => true,
        }),
        (params.humanization_permille == 0 && params.wpm <= 1_200_000 && (forall|q: int|
            0 <= q < text.spec_bytes().len() ==> #[trigger] text.spec_bytes()[q] != 91)) ==> (
        match r {
            Ok(v) => v@ == gen_elems(
                text.spec_bytes(),
                0,
                false,
                spec_dot_us(params.wpm),
                spec_word_gap_us(spec_dot_us(params.wpm), params.word_gap_permille),
            ),
            Err(_) => true,
        }),
{
    if params.wpm <= 0 {
        return Err(String::from_str("Invalid WPM"));
    }

    let factor = params.humanization_permille;
    let mut rng: Option<SimpleRng> = if factor > 0 {
        Some(SimpleRng::new(params.random_seed))
    } else {
        None
    };

    let dot_us: u64 = 1_200_000 / (params.wpm as u64);
    proof {
        vstd::arithmetic::mul::lemma_mul_upper_bound(
            (dot_us as int) * 7,
            8_400_000,
            params.word_gap_permille as int,
            0xffff_ffff,
        );
    }
    let word_gap_us: u64 = dot_us * 7 * (params.word_gap_permille as u64) / 1000;
    proof {
        vstd::arithmetic::div_mod::lemma_div_is_ordered(
            (dot_us as int) * 7 * (params.word_gap_permille as int),
            8_400_000 * 0xffff_ffffint,
            1000,
        );
        vstd::arithmetic::div_mod::lemma_div_pos_is_pos(
            (dot_us as int) * 7 * (params.word_gap_permille as int),
            1000,
        );
        assert(word_gap_us <= BASE_DURATION_CAP_US);
    }
    let mut elements: Vec<MorseElement> = Vec::new();

    if dot_us == 0 {
        // Speeds above 1.2 million words per minute have no
        // representable dot; nothing can be generated.
        proof {
            if params.wpm <= 1_200_000 {
                vstd::arithmetic::div_mod::lemma_div_by_self(params.wpm as int);
                vstd::arithmetic::div_mod::lemma_div_is_ordered(
                    params.wpm as int,
                    1_200_000,
                    params.wpm as int,
                );
            }
        }
        return Ok(elements);
    }

    let bytes = text.as_bytes();
    let mut i: usize = 0;
    while i < bytes.len()
        invariant
            1 <= dot_us <= 1_200_000,
            dot_us == spec_dot_us(params.wpm),
            word_gap_us == spec_word_gap_us(dot_us as int, params.word_gap_permille),
            word_gap_us <= BASE_DURATION_CAP_US,
            factor == params.humanization_permille,
            i <= bytes@.len(),
            bytes@ == text.spec_bytes(),
            forall|q: int|
                0 <= q < elements@.len() ==> element_timing_ok(
                    #[trigger] elements@[q],
                    dot_us as int,
                    word_gap_us as int,
                    factor,
                ),
            kinds_of(elements@) + gen_kinds(bytes@, i as int, needs_sep_state(elements@))
                == gen_kinds(bytes@, 0, false),
            (factor == 0 && (forall|q: int| 0 <= q < bytes@.len() ==> #[trigger] bytes@[q] != 91))
                ==> elements@ + gen_elems(
                bytes@,
                i as int,
                needs_sep_state(elements@),
                dot_us as int,
                word_gap_us as int,
            ) == gen_elems(bytes@, 0, false, dot_us as int, word_gap_us as int),
        decreases bytes@.len() - i,
    {
        let ghost kinds_before = kinds_of(elements@);
        let ghost elems_before = elements@;
        let ghost sep_before = needs_sep_state(elements@);
        let ch = bytes[i];
        if ch == 32 {
            // A space becomes an inter-word gap.
            let duration = apply_humanization(word_gap_us, factor, &mut rng);
            elements.push(
                MorseElement { element_type: MorseElementType::Gap, duration_micros: duration },
            );
            proof {
                assert(kinds_of(elements@) =~= kinds_before.push(MorseElementType::Gap));
                assert(kinds_before.push(MorseElementType::Gap) + gen_kinds(
                    bytes@,
                    i as int + 1,
                    false,
                ) =~= kinds_before + (seq![MorseElementType::Gap] + gen_kinds(
                    bytes@,
                    i as int + 1,
                    false,
                )));
                if factor == 0 {
                    assert(elements@ =~= elems_before.push(gap_elem(word_gap_us as int)));
                    assert(elems_before.push(gap_elem(word_gap_us as int)) + gen_elems(
                        bytes@,
                        i as int + 1,
                        false,
                        dot_us as int,
                        word_gap_us as int,
                    ) =~= elems_before + (seq![gap_elem(word_gap_us as int)] + gen_elems(
                        bytes@,
                        i as int + 1,
                        false,
                        dot_us as int,
                        word_gap_us as int,
                    )));
                }
            }
            i = i + 1;
        } else if ch == 91 {  // '['
            // A prosign: its characters are separated by one-unit gaps
            // only; spaces and unknown characters inside are skipped.
            let ghost i_open = i as int;
            i = i + 1;
            let ghost i_entry = i as int;
            let ghost close = close_idx(bytes@, i_entry);
            proof {
                lemma_close_idx(bytes@, i_entry);
            }
            let mut prosign_char_count: u64 = 0;
            // Scan up to the closing bracket (93 is the byte of ']').
            while i < bytes.len() && bytes[i] != 93
                invariant
                    1 <= dot_us <= 1_200_000,
                    word_gap_us <= BASE_DURATION_CAP_US,
                    factor == params.humanization_permille,
                    bytes@ == text.spec_bytes(),
                    i_entry <= i <= bytes@.len(),
                    1 <= i_entry,
                    close == close_idx(bytes@, i_entry),
                    close == close_idx(bytes@, i as int),
                    i as int <= close <= bytes@.len(),
                    kinds_before == kinds_of(elems_before),
                    prosign_char_count == 0 ==> elements@ == elems_before,
                    prosign_char_count > 0 ==> elements@.len() > 0
                        && elements@.last().element_type != MorseElementType::Gap
                        && kinds_of(elements@).len() > kinds_before.len(),
                    kinds_of(elements@) + prosign_kinds(
                        bytes@,
                        i as int,
                        close,
                        prosign_char_count > 0,
                    ) == kinds_before + prosign_kinds(bytes@, i_entry, close, false),
                    forall|q: int|
                        0 <= q < elements@.len() ==> element_timing_ok(
                            #[trigger] elements@[q],
                            dot_us as int,
                            word_gap_us as int,
                            factor,
                        ),
                decreases bytes@.len() - i,
            {
                proof {
                    lemma_close_idx(bytes@, i as int);
                    assert((i as int) < close);
                }
                let ghost kinds_in = kinds_of(elements@);
                let ghost started_in = prosign_char_count > 0;
                let prosign_ch = bytes[i];
                if prosign_ch != 32 {
                    if let Some(pattern) = get_morse_pattern(prosign_ch) {
                        proof {
                            lemma_pattern_wf(prosign_ch);
                        }
                        if prosign_char_count > 0 {
                            let duration = apply_humanization(dot_us, factor, &mut rng);
                            elements.push(
                                MorseElement {
                                    element_type: MorseElementType::Gap,
                                    duration_micros: duration,
                                },
                            );
                            proof {
                                assert(kinds_of(elements@) =~= kinds_in.push(
                                    MorseElementType::Gap,
                                ));
                            }
                        }
                        push_pattern(
                            &mut elements,
                            &pattern,
                            dot_us,
                            word_gap_us,
                            factor,
                            &mut rng,
                        );
                        if prosign_char_count < u64::MAX {
                            prosign_char_count = prosign_char_count + 1;
                        }
                        proof {
                            let p = pattern@;
                            let sep_seq = if started_in {
                                seq![MorseElementType::Gap]
                            } else {
                                Seq::<MorseElementType>::empty()
                            };
                            assert(kinds_of(elements@) =~= kinds_in + sep_seq + interleaved(p));
                            assert((kinds_in + sep_seq + interleaved(p)) + prosign_kinds(
                                bytes@,
                                i as int + 1,
                                close,
                                true,
                            ) =~= kinds_in + (sep_seq + interleaved(p) + prosign_kinds(
                                bytes@,
                                i as int + 1,
                                close,
                                true,
                            )));
                            assert(interleaved(p).len() >= 1);
                        }
                    }
                }
                i = i + 1;
            }
            proof {
                // The scan stopped exactly on the closing bracket (or
                // the text's end), so the interior is fully consumed.
                lemma_close_idx(bytes@, i as int);
                assert((i as int) == close);
                assert(prosign_kinds(bytes@, close, close, prosign_char_count > 0) =~= Seq::<
                    MorseElementType,
                >::empty());
                assert(kinds_of(elements@) =~= kinds_before + prosign_kinds(
                    bytes@,
                    i_entry,
                    close,
                    false,
                ));
            }
            let ghost count_end = prosign_char_count;
            if i < bytes.len() {
                // Consume the closing bracket.
                i = i + 1;
            }
            proof {
                let pk = prosign_kinds(bytes@, i_entry, close, false);
                assert(pk.len() > 0 <==> count_end > 0);
                let sep_after = if pk.len() > 0 {
                    true
                } else {
                    sep_before
                };
                assert(needs_sep_state(elements@) == sep_after);
                assert(gen_kinds(bytes@, i_open, sep_before) == pk + gen_kinds(
                    bytes@,
                    i as int,
                    sep_after,
                ));
                assert((kinds_before + pk) + gen_kinds(bytes@, i as int, sep_after)
                    =~= kinds_before + (pk + gen_kinds(bytes@, i as int, sep_after)));
            }
        } else {
            if let Some(pattern) = get_morse_pattern(ch) {
                proof {
                    lemma_pattern_wf(ch);
                }
                // Separate this character from an earlier one, unless
                // the last element is already a gap.
                let needs_gap = if elements.len() > 0 {
                    let last = elements[elements.len() - 1];
                    !matches!(last.element_type, MorseElementType::Gap)
                } else {
                    false
                };
                proof {
                    assert(needs_gap == sep_before);
                }
                if needs_gap {
                    let duration = apply_humanization(3 * dot_us, factor, &mut rng);
                    elements.push(
                        MorseElement {
                            element_type: MorseElementType::Gap,
                            duration_micros: duration,
                        },
                    );
                    proof {
                        assert(kinds_of(elements@) =~= kinds_before.push(MorseElementType::Gap));
                        if factor == 0 {
                            assert(elements@ =~= elems_before.push(
                                gap_elem(3 * (dot_us as int)),
                            ));
                        }
                    }
                }
                push_pattern(&mut elements, &pattern, dot_us, word_gap_us, factor, &mut rng);
                proof {
                    let p = pattern@;
                    assert(elements@.last().element_type == p[p.len() - 1]);
                    assert(needs_sep_state(elements@) == true);
                    let sep_seq = if sep_before {
                        seq![MorseElementType::Gap]
                    } else {
                        Seq::<MorseElementType>::empty()
                    };
                    assert(kinds_of(elements@) =~= kinds_before + sep_seq + interleaved(p));
                    assert((kinds_before + sep_seq + interleaved(p)) + gen_kinds(
                        bytes@,
                        i as int + 1,
                        true,
                    ) =~= kinds_before + (sep_seq + interleaved(p) + gen_kinds(
                        bytes@,
                        i as int + 1,
                        true,
                    )));
                    if factor == 0 {
                        let sep_elems = if sep_before {
                            seq![gap_elem(3 * (dot_us as int))]
                        } else {
                            Seq::<MorseElement>::empty()
                        };
                        assert(elements@ =~= elems_before + sep_elems + interleaved_elems(
                            p,
                            dot_us as int,
                        ));
                        assert((elems_before + sep_elems + interleaved_elems(p, dot_us as int))
                            + gen_elems(
                            bytes@,
                            i as int + 1,
                            true,
                            dot_us as int,
                            word_gap_us as int,
                        ) =~= elems_before + (sep_elems + interleaved_elems(p, dot_us as int)
                            + gen_elems(
                            bytes@,
                            i as int + 1,
                            true,
                            dot_us as int,
                            word_gap_us as int,
                        )));
                    }
                }
            }
            i = i + 1;
        }
    }
    proof {
        assert(kinds_of(elements@) + Seq::<MorseElementType>::empty() =~= kinds_of(elements@));
        assert(elements@ + Seq::<MorseElement>::empty() =~= elements@);
    }

    Ok(elements)
}

/// The number of elements `morse_timing` would generate, with the same
/// failure condition. The count is pinned: the length of the generated
/// kind sequence, independent of the jitter settings.
pub fn morse_timing_size(text: &str, params: &MorseTimingParams) -> (r: Result<usize, String>)
    ensures
        (r is Err) <==> params.wpm <= 0,
        r matches Err(m) ==> m@ == "Invalid WPM"@,
        params.wpm <= 1_200_000 ==> (match r {
            Ok(n) => n == gen_kinds(text.spec_bytes(), 0, false).len(),
            Err(_) => true,
        }),
{
    match morse_timing(text, params) {
        Ok(elements) => Ok(elements.len()),
        Err(e) => Err(e),
    }
}

} // verus!
