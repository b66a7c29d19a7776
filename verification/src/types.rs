//! Core data types shared by the timing generator and the decoder.
//!
//! Wire formats usually carry durations as fractional seconds; this
//! library represents every duration as a whole number of microseconds
//! and every ratio as a whole number of thousandths (permille), so that
//! all arithmetic is exact. The conversion belongs to the caller.

use vstd::prelude::*;

verus! {

/// One element of a Morse transmission: a tone of one unit (dot), a tone
/// of three units (dash), or a silence (gap).
#[derive(Clone, Copy, PartialEq, Eq, Structural, Debug)]
pub enum MorseElementType {
    Dot,
    Dash,
    Gap,
}

/// The role a silence plays: inside a character, between characters, or
/// between words.
#[derive(Clone, Copy, PartialEq, Eq, Structural, Debug)]
pub enum GapType {
    IntraCharacter,
    InterCharacter,
    Word,
}

/// A timed element produced by the generator.
#[derive(Clone, Copy, PartialEq, Eq, Structural, Debug)]
pub struct MorseElement {
    pub element_type: MorseElementType,
    /// Duration of the element in microseconds.
    pub duration_micros: u64,
}

/// One observed on/off interval handed to the decoder. `on == true` is a
/// tone (dot or dash); `on == false` is silence (a gap of some kind).
#[derive(Clone, Copy, PartialEq, Eq, Structural, Debug)]
pub struct MorseSignal {
    pub on: bool,
    /// Length of the interval in microseconds.
    pub micros: u64,
}

/// Parameters of the text-to-timing generator.
#[derive(Clone, Copy, Debug)]
pub struct MorseTimingParams {
    /// Transmission speed in words per minute; one dot lasts
    /// `1_200_000 / wpm` microseconds.
    pub wpm: i32,
    /// Stretch factor applied to inter-word gaps, in thousandths
    /// (1000 = the standard seven-dot word gap).
    pub word_gap_permille: u32,
    /// Strength of the random timing jitter, in thousandths
    /// (0 = exact timing, 1000 = full jitter).
    pub humanization_permille: u32,
    /// Seed for the jitter generator; 0 selects a seed from the clock.
    pub random_seed: u32,
}

impl Default for MorseTimingParams {
    fn default() -> (d: Self)
        ensures
            d.wpm == 20,
            d.word_gap_permille == 1000,
            d.humanization_permille == 0,
            d.random_seed == 0,
    {
        MorseTimingParams { wpm: 20, word_gap_permille: 1000, humanization_permille: 0, random_seed: 0 }
    }
}

/// Parameters of the decoder.
#[derive(Clone, Copy, Debug)]
pub struct MorseInterpretParams {
    /// The decoder stops consuming signals once a hypothesis has emitted
    /// this many characters.
    pub max_output_length: i32,
}

impl Default for MorseInterpretParams {
    fn default() -> (d: Self)
        ensures
            d.max_output_length == 1000,
    {
        MorseInterpretParams { max_output_length: 1000 }
    }
}

/// What the decoder returns.
#[derive(Clone, Debug)]
pub struct MorseInterpretResult {
    /// The recovered text.
    pub text: String,
    /// A heuristic confidence score in thousandths, between 0 and 1000.
    pub confidence: u32,
    /// How many signals the decoder consumed (noise below the noise
    /// floor is not counted).
    pub signals_processed: i32,
    /// How many non-space characters were recognized.
    pub patterns_recognized: i32,
}

} // verus!
