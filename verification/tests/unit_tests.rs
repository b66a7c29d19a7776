//! Unit tests of the library's components: the pattern table, the
//! trie, the fixed-point logarithm, the classifiers, the language
//! model, sorting, humanization and the beam bound.

use morse_core::analysis::{cluster_gap_durations, find_dot_duration, MorseTimings};
use morse_core::beam::{BeamSearchDecoder, BeamSearchParams};
use morse_core::fixmath::ln_micros;
use morse_core::lm::get_language_model;
use morse_core::model::{GapClusters, ProbabilisticTimingModel, TimingTracker};
use morse_core::patterns::get_morse_pattern;
use morse_core::rng::SimpleRng;
use morse_core::sorting::sort_durations;
use morse_core::timing::apply_humanization;
use morse_core::trie::get_morse_trie;
use morse_core::types::{GapType, MorseElementType, MorseSignal};

#[test]
fn test_pattern_table() {
    assert_eq!(
        get_morse_pattern(b'A').unwrap(),
        vec![MorseElementType::Dot, MorseElementType::Dash]
    );
    // Lower case letters share the upper-case pattern.
    assert_eq!(get_morse_pattern(b'a'), get_morse_pattern(b'A'));
    assert_eq!(
        get_morse_pattern(b'0').unwrap(),
        vec![MorseElementType::Dash; 5]
    );
    assert_eq!(get_morse_pattern(b'%'), None);
    assert_eq!(get_morse_pattern(b' '), None);
}

#[test]
fn test_trie_lookup() {
    let trie = get_morse_trie();
    // E = . : one dot from the root.
    let e = trie.transition(0, MorseElementType::Dot).unwrap();
    assert_eq!(trie.get_terminal(e), Some(b'E'));
    // A = .- : dot then dash.
    let a = trie.transition(e, MorseElementType::Dash).unwrap();
    assert_eq!(trie.get_terminal(a), Some(b'A'));
    // T = - : one dash.
    let t = trie.transition(0, MorseElementType::Dash).unwrap();
    assert_eq!(trie.get_terminal(t), Some(b'T'));
    // Gaps never advance the trie.
    assert_eq!(trie.transition(0, MorseElementType::Gap), None);
}

#[test]
fn test_ln_micros_values() {
    // ln of one second is zero (in millinats, up to rounding).
    assert!(ln_micros(1_000_000).abs() <= 2);
    // Doubling adds ln 2.
    let d = ln_micros(2_000_000) - ln_micros(1_000_000);
    assert!((d - 693).abs() <= 2);
    // Tripling adds ln 3.
    let t = ln_micros(3_000_000) - ln_micros(1_000_000);
    assert!((t - 1099).abs() <= 2);
    // One millisecond is minus ln 1000.
    let m = ln_micros(1_000);
    assert!((m + 6908).abs() <= 2);
}

#[test]
fn test_classify_elements() {
    let tracker = TimingTracker::new(100_000);
    let clusters = GapClusters {
        intra_to_inter_threshold: 200_000,
        inter_to_word_threshold: 500_000,
    };
    let model = ProbabilisticTimingModel::from_tracker_and_clusters(&tracker, clusters);
    assert_eq!(
        model.classify_element_min_cost(100_000),
        MorseElementType::Dot
    );
    assert_eq!(
        model.classify_element_min_cost(300_000),
        MorseElementType::Dash
    );
    assert_eq!(model.classify_gap_min_cost(100_000), GapType::IntraCharacter);
    assert_eq!(model.classify_gap_min_cost(300_000), GapType::InterCharacter);
    assert_eq!(model.classify_gap_min_cost(700_000), GapType::Word);
}

#[test]
fn test_language_model_costs() {
    let lm = get_language_model();
    // The distress pattern carries its dedicated low cost.
    assert_eq!(lm.get_cost([b'S', b'O'], b'S'), 500);
    // An impossible trigram pays the default.
    assert_eq!(lm.get_cost([b'Q', b'Q'], b'Q'), 8000);
    // The most common English trigram is almost free.
    assert!(lm.get_cost([b'T', b'H'], b'E') < 100);
}

#[test]
fn test_sort_durations() {
    let v = vec![30_000u64, 10_000, 20_000, 10_000];
    let sorted = sort_durations(&v);
    assert_eq!(sorted, vec![10_000u64, 10_000, 20_000, 30_000]);
}

#[test]
fn test_find_dot_duration_median() {
    // Three dots and two dashes around a 100 ms unit.
    let on = vec![95_000u64, 100_000, 105_000, 310_000, 290_000];
    let dot = find_dot_duration(&on);
    assert_eq!(dot, 100_000);
}

#[test]
fn test_cluster_fallbacks() {
    // No silences: theoretical ratios of the dot length.
    let c = cluster_gap_durations(&Vec::new(), 100_000);
    assert_eq!(c.intra_to_inter_threshold, 200_000);
    assert_eq!(c.inter_to_word_threshold, 500_000);
    // Too few to cluster: generous thresholds around the median.
    let c2 = cluster_gap_durations(&vec![100_000u64, 300_000], 100_000);
    assert_eq!(c2.intra_to_inter_threshold, 140_000);
    assert_eq!(c2.inter_to_word_threshold, 300_000);
}

#[test]
fn test_cluster_two_breakpoints_midpoints() {
    // Both thresholds sit at the midpoints straddling the two widest
    // gaps of the sorted sample.
    let c = cluster_gap_durations(&vec![100_000u64, 300_000, 400_000], 100_000);
    assert_eq!(c.intra_to_inter_threshold, 200_000);
    assert_eq!(c.inter_to_word_threshold, 350_000);
    // With a single positive gap the upper threshold falls back to two
    // and a half times the lower one.
    let c2 = cluster_gap_durations(&vec![100_000u64, 100_000, 300_000], 100_000);
    assert_eq!(c2.intra_to_inter_threshold, 200_000);
    assert_eq!(c2.inter_to_word_threshold, 500_000);
}

#[test]
fn test_cluster_three_bands() {
    // Clear intra / inter / word bands cluster at the two widest gaps.
    let off = vec![
        100_000u64, 110_000, 90_000, 300_000, 310_000, 700_000, 720_000,
    ];
    let c = cluster_gap_durations(&off, 100_000);
    assert!(c.intra_to_inter_threshold > 110_000);
    assert!(c.intra_to_inter_threshold < 300_000);
    assert!(c.inter_to_word_threshold > 310_000);
    assert!(c.inter_to_word_threshold < 700_000);
}

#[test]
fn test_humanization_zero_is_identity() {
    let mut rng: Option<SimpleRng> = Some(SimpleRng::new(7));
    assert_eq!(apply_humanization(60_000, 0, &mut rng), 60_000);
    let mut no_rng: Option<SimpleRng> = None;
    assert_eq!(apply_humanization(60_000, 500, &mut no_rng), 60_000);
}

#[test]
fn test_humanization_stays_in_bounds() {
    let mut rng: Option<SimpleRng> = Some(SimpleRng::new(12345));
    for _ in 0..100 {
        let d = apply_humanization(60_000, 900, &mut rng);
        assert!(d >= 6_000);
        assert!(d <= 78_000);
    }
}

#[test]
fn test_beam_never_exceeds_width() {
    // Feed a long alternating stream and watch the beam stay bounded.
    let mut signals = Vec::new();
    for i in 0..60 {
        signals.push(MorseSignal {
            on: true,
            micros: if i % 3 == 0 { 300_000 } else { 100_000 },
        });
        signals.push(MorseSignal {
            on: false,
            micros: if i % 5 == 0 { 700_000 } else { 300_000 },
        });
    }
    let timings = MorseTimings::from_signals(&signals).unwrap();
    let params = BeamSearchParams::default();
    let mut decoder = BeamSearchDecoder::new(&timings, params);
    for s in &signals {
        decoder.update_timing(s);
        if s.on {
            decoder.process_on_signal(s.micros);
        } else {
            decoder.process_off_signal(s.micros);
        }
        assert!(decoder.hypotheses.len() <= 64);
    }
}

#[test]
fn test_from_signals_requires_tone() {
    let silence = vec![MorseSignal {
        on: false,
        micros: 300_000,
    }];
    assert!(MorseTimings::from_signals(&silence).is_err());
    let tone = vec![MorseSignal {
        on: true,
        micros: 100_000,
    }];
    let t = MorseTimings::from_signals(&tone).unwrap();
    assert_eq!(t.dot_duration, 100_000);
}
