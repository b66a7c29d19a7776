//! Decoder tests: single characters, words, and degenerate inputs.

use morse_core::interpret::morse_interpret;
use morse_core::types::{MorseInterpretParams, MorseSignal};

fn create_test_signal(on: bool, seconds: f64) -> MorseSignal {
    MorseSignal {
        on,
        micros: (seconds * 1_000_000.0).round() as u64,
    }
}

#[test]
fn test_empty_signals() {
    let params = MorseInterpretParams::default();
    let signals: Vec<MorseSignal> = Vec::new();
    let result = morse_interpret(&signals, &params).unwrap();
    assert_eq!(result.text, "");
    assert_eq!(result.confidence, 0);
}

#[test]
fn test_single_dot() {
    let params = MorseInterpretParams::default();
    // E = .
    let signals = vec![
        create_test_signal(true, 0.1),  // dot
        create_test_signal(false, 0.3), // character gap
    ];

    let result = morse_interpret(&signals, &params).unwrap();
    assert_eq!(result.text, "E");
    assert!(result.confidence > 0);
}

#[test]
fn test_hello() {
    let params = MorseInterpretParams::default();
    // H = ...., E = ., L = .-.., L = .-.., O = ---
    let dot = 0.1;
    let dash = 0.3;
    let element_gap = 0.1;
    let char_gap = 0.3;

    let signals = vec![
        // H = ....
        create_test_signal(true, dot),
        create_test_signal(false, element_gap),
        create_test_signal(true, dot),
        create_test_signal(false, element_gap),
        create_test_signal(true, dot),
        create_test_signal(false, element_gap),
        create_test_signal(true, dot),
        create_test_signal(false, char_gap),
        // E = .
        create_test_signal(true, dot),
        create_test_signal(false, char_gap),
        // L = .-..
        create_test_signal(true, dot),
        create_test_signal(false, element_gap),
        create_test_signal(true, dash),
        create_test_signal(false, element_gap),
        create_test_signal(true, dot),
        create_test_signal(false, element_gap),
        create_test_signal(true, dot),
        create_test_signal(false, char_gap),
        // L = .-..
        create_test_signal(true, dot),
        create_test_signal(false, element_gap),
        create_test_signal(true, dash),
        create_test_signal(false, element_gap),
        create_test_signal(true, dot),
        create_test_signal(false, element_gap),
        create_test_signal(true, dot),
        create_test_signal(false, char_gap),
        // O = ---
        create_test_signal(true, dash),
        create_test_signal(false, element_gap),
        create_test_signal(true, dash),
        create_test_signal(false, element_gap),
        create_test_signal(true, dash),
    ];

    let result = morse_interpret(&signals, &params).unwrap();
    assert_eq!(result.text, "HELLO");
    assert!(result.confidence > 800);
}

#[test]
fn test_silence_only_fails() {
    // A stream of silences has no tone to decode: the one hard error.
    let params = MorseInterpretParams::default();
    let signals = vec![
        create_test_signal(false, 0.2),
        create_test_signal(false, 0.4),
        create_test_signal(false, 0.9),
    ];
    let result = morse_interpret(&signals, &params);
    assert!(result.is_err());
    assert_eq!(result.unwrap_err(), "No valid on signals found");
}

#[test]
fn test_noise_only_fails() {
    // Tones below the noise floor do not count as tones.
    let params = MorseInterpretParams::default();
    let signals = vec![
        create_test_signal(true, 0.005),
        create_test_signal(false, 0.3),
        create_test_signal(true, 0.009),
    ];
    let result = morse_interpret(&signals, &params);
    assert!(result.is_err());
}

#[test]
fn test_noise_is_ignored() {
    // Inserting sub-threshold blips into a clean "E" changes nothing.
    let params = MorseInterpretParams::default();
    let clean = vec![
        create_test_signal(true, 0.1),
        create_test_signal(false, 0.3),
    ];
    let noisy = vec![
        create_test_signal(false, 0.004),
        create_test_signal(true, 0.1),
        create_test_signal(true, 0.009),
        create_test_signal(false, 0.3),
        create_test_signal(false, 0.001),
    ];
    let clean_result = morse_interpret(&clean, &params).unwrap();
    let noisy_result = morse_interpret(&noisy, &params).unwrap();
    assert_eq!(clean_result.text, noisy_result.text);
    assert_eq!(clean_result.confidence, noisy_result.confidence);
    assert_eq!(clean_result.signals_processed, noisy_result.signals_processed);
    assert_eq!(noisy_result.signals_processed, 2);
}

#[test]
fn test_output_length_cap() {
    // The decoder stops consuming once a hypothesis reaches the cap.
    let params = MorseInterpretParams {
        max_output_length: 2,
    };
    let mut signals = Vec::new();
    for _ in 0..8 {
        signals.push(create_test_signal(true, 0.1));
        signals.push(create_test_signal(false, 0.3));
    }
    let result = morse_interpret(&signals, &params).unwrap();
    assert!(result.text.len() <= 5);
    assert!((result.signals_processed as usize) < signals.len());
}
