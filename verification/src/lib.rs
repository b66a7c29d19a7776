//! Adaptive Morse code library: a text-to-timing generator and a
//! beam-search decoder that recovers text from noisy on/off signal
//! durations.
//!
//! All durations are integer microseconds and all costs are integer
//! thousandths of a nat (negative log-likelihood units), so that every
//! step of the decoder is exact, deterministic arithmetic.

use vstd::prelude::*;
use vstd::string::StringSliceAdditionalSpecFns;

pub mod analysis;
pub mod beam;
pub mod fixmath;
pub mod interpret;
pub mod lm;
pub mod model;
pub mod patterns;
pub mod rng;
pub mod sorting;
pub mod text;
pub mod timing;
pub mod trie;
pub mod types;

pub use interpret::morse_interpret;
pub use timing::morse_timing;
pub use timing::morse_timing_size;

verus! {

/// Number of microseconds in one second.
pub const MICROS_PER_SECOND: u64 = 1_000_000;

/// Generate Morse timing elements from text; the library's public
/// entry point for the generator.
pub fn generate_morse_timing(text: &str, params: &types::MorseTimingParams) -> (r: Result<
    Vec<types::MorseElement>,
    String,
>)
    ensures
        (r is Err) <==> params.wpm <= 0,
        r matches Err(m) ==> m@ == "Invalid WPM"@,
        r matches Ok(v) ==> forall|i: int|
            0 <= i < v@.len() ==> timing::element_timing_ok(
                #[trigger] v@[i],
                timing::spec_dot_us(params.wpm),
                timing::spec_word_gap_us(timing::spec_dot_us(params.wpm), params.word_gap_permille),
                params.humanization_permille,
            ),
        params.wpm <= 1_200_000 ==> (match r {
            Ok(v) => timing::kinds_of(v@) == timing::gen_kinds(text.spec_bytes(), 0, false),
            Err(_) => true,
        }),
        (params.humanization_permille == 0 && params.wpm <= 1_200_000 && (forall|q: int|
            0 <= q < text.spec_bytes().len() ==> #[trigger] text.spec_bytes()[q] != 91)) ==> (
        match r {
            Ok(v) => v@ == timing::gen_elems(
                text.spec_bytes(),
                0,
                false,
                timing::spec_dot_us(params.wpm),
                timing::spec_word_gap_us(timing::spec_dot_us(params.wpm), params.word_gap_permille),
            ),
            Err(_) => true,
        }),
{
    timing::morse_timing(text, params)
}

} // verus!
