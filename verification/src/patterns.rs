//! Static table mapping characters to their dot/dash sequences.
//!
//! The table covers the letters (upper and lower case map to the same
//! pattern), the digits, and the standard punctuation set. Characters
//! outside the table have no Morse pattern.

use vstd::prelude::*;
use crate::types::MorseElementType;
use crate::types::MorseElementType::Dash;
use crate::types::MorseElementType::Dot;

verus! {

/// The dot/dash sequence assigned to a character, if it has one.
pub open spec fn pattern_spec(ch: u8) -> Option<Seq<MorseElementType>> {
    if ch == 65 || ch == 97 {  // 'A'/'a'
        Some(seq![Dot, Dash])
    } else if ch == 66 || ch == 98 {  // 'B'/'b'
        Some(seq![Dash, Dot, Dot, Dot])
    } else if ch == 67 || ch == 99 {  // 'C'/'c'
        Some(seq![Dash, Dot, Dash, Dot])
    } else if ch == 68 || ch == 100 {  // 'D'/'d'
        Some(seq![Dash, Dot, Dot])
    } else if ch == 69 || ch == 101 {  // 'E'/'e'
        Some(seq![Dot])
    } else if ch == 70 || ch == 102 {  // 'F'/'f'
        Some(seq![Dot, Dot, Dash, Dot])
    } else if ch == 71 || ch == 103 {  // 'G'/'g'
        Some(seq![Dash, Dash, Dot])
    } else if ch == 72 || ch == 104 {  // 'H'/'h'
        Some(seq![Dot, Dot, Dot, Dot])
    } else if ch == 73 || ch == 105 {  // 'I'/'i'
        Some(seq![Dot, Dot])
    } else if ch == 74 || ch == 106 {  // 'J'/'j'
        Some(seq![Dot, Dash, Dash, Dash])
    } else if ch == 75 || ch == 107 {  // 'K'/'k'
        Some(seq![Dash, Dot, Dash])
    } else if ch == 76 || ch == 108 {  // 'L'/'l'
        Some(seq![Dot, Dash, Dot, Dot])
    } else if ch == 77 || ch == 109 {  // 'M'/'m'
        Some(seq![Dash, Dash])
    } else if ch == 78 || ch == 110 {  // 'N'/'n'
        Some(seq![Dash, Dot])
    } else if ch == 79 || ch == 111 {  // 'O'/'o'
        Some(seq![Dash, Dash, Dash])
    } else if ch == 80 || ch == 112 {  // 'P'/'p'
        Some(seq![Dot, Dash, Dash, Dot])
    } else if ch == 81 || ch == 113 {  // 'Q'/'q'
        Some(seq![Dash, Dash, Dot, Dash])
    } else if ch == 82 || ch == 114 {  // 'R'/'r'
        Some(seq![Dot, Dash, Dot])
    } else if ch == 83 || ch == 115 {  // 'S'/'s'
        Some(seq![Dot, Dot, Dot])
    } else if ch == 84 || ch == 116 {  // 'T'/'t'
        Some(seq![Dash])
    } else if ch == 85 || ch == 117 {  // 'U'/'u'
        Some(seq![Dot, Dot, Dash])
    } else if ch == 86 || ch == 118 {  // 'V'/'v'
        Some(seq![Dot, Dot, Dot, Dash])
    } else if ch == 87 || ch == 119 {  // 'W'/'w'
        Some(seq![Dot, Dash, Dash])
    } else if ch == 88 || ch == 120 {  // 'X'/'x'
        Some(seq![Dash, Dot, Dot, Dash])
    } else if ch == 89 || ch == 121 {  // 'Y'/'y'
        Some(seq![Dash, Dot, Dash, Dash])
    } else if ch == 90 || ch == 122 {  // 'Z'/'z'
        Some(seq![Dash, Dash, Dot, Dot])
    } else if ch == 48 {  // '0'
        Some(seq![Dash, Dash, Dash, Dash, Dash])
    } else if ch == 49 {  // '1'
        Some(seq![Dot, Dash, Dash, Dash, Dash])
    } else if ch == 50 {  // '2'
        Some(seq![Dot, Dot, Dash, Dash, Dash])
    } else if ch == 51 {  // '3'
        Some(seq![Dot, Dot, Dot, Dash, Dash])
    } else if ch == 52 {  // '4'
        Some(seq![Dot, Dot, Dot, Dot, Dash])
    } else if ch == 53 {  // '5'
        Some(seq![Dot, Dot, Dot, Dot, Dot])
    } else if ch == 54 {  // '6'
        Some(seq![Dash, Dot, Dot, Dot, Dot])
    } else if ch == 55 {  // '7'
        Some(seq![Dash, Dash, Dot, Dot, Dot])
    } else if ch == 56 {  // '8'
        Some(seq![Dash, Dash, Dash, Dot, Dot])
    } else if ch == 57 {  // '9'
        Some(seq![Dash, Dash, Dash, Dash, Dot])
    } else if ch == 46 {  // '.'
        Some(seq![Dot, Dash, Dot, Dash, Dot, Dash])
    } else if ch == 44 {  // ','
        Some(seq![Dash, Dash, Dot, Dot, Dash, Dash])
    } else if ch == 63 {  // '?'
        Some(seq![Dot, Dot, Dash, Dash, Dot, Dot])
    } else if ch == 39 {  // '''
        Some(seq![Dot, Dash, Dash, Dash, Dash, Dot])
    } else if ch == 33 {  // '!'
        Some(seq![Dash, Dot, Dash, Dot, Dash, Dash])
    } else if ch == 47 {  // '/'
        Some(seq![Dash, Dot, Dot, Dash, Dot])
    } else if ch == 40 {  // '('
        Some(seq![Dash, Dot, Dash, Dash, Dot])
    } else if ch == 41 {  // ')'
        Some(seq![Dash, Dot, Dash, Dash, Dot, Dash])
    } else if ch == 38 {  // '&'
        Some(seq![Dot, Dash, Dot, Dot, Dot])
    } else if ch == 58 {  // ':'
        Some(seq![Dash, Dash, Dash, Dot, Dot, Dot])
    } else if ch == 59 {  // ';'
        Some(seq![Dash, Dot, Dash, Dot, Dash, Dot])
    } else if ch == 61 {  // '='
        Some(seq![Dash, Dot, Dot, Dot, Dash])
    } else if ch == 43 {  // '+'
        Some(seq![Dot, Dash, Dot, Dash, Dot])
    } else if ch == 45 {  // '-'
        Some(seq![Dash, Dot, Dot, Dot, Dot, Dash])
    } else if ch == 95 {  // '_'
        Some(seq![Dot, Dot, Dash, Dash, Dot, Dash])
    } else if ch == 34 {  // '"'
        Some(seq![Dot, Dash, Dot, Dot, Dash, Dot])
    } else if ch == 36 {  // '$'
        Some(seq![Dot, Dot, Dot, Dash, Dot, Dot, Dash])
    } else if ch == 64 {  // '@'
        Some(seq![Dot, Dash, Dash, Dot, Dash, Dot])
    } else {
        None
    }
}

/// True for the characters that carry a Morse pattern.
pub open spec fn has_pattern(ch: u8) -> bool {
    pattern_spec(ch) is Some
}

/// True for the bytes the trie may carry as a terminal: table characters
/// in their canonical form (lower-case letters are folded to upper case
/// before they reach the trie).
pub open spec fn is_terminal_byte(ch: u8) -> bool {
    has_pattern(ch) && !(97 <= ch <= 122)
}

/// True for the bytes that decoded text may contain: trie terminals and
/// the space that separates words.
pub open spec fn is_text_byte(ch: u8) -> bool {
    is_terminal_byte(ch) || ch == 32
}

/// Every pattern in the table has between one and seven elements and
/// consists of dots and dashes only.
pub proof fn lemma_pattern_wf(ch: u8)
    ensures
        pattern_spec(ch) matches Some(p) ==> {
            &&& 1 <= p.len() <= 7
            &&& forall|i: int| 0 <= i < p.len() ==> #[trigger] p[i] != MorseElementType::Gap
        },
{
}

/// Look up the dot/dash sequence of a character.
pub fn get_morse_pattern(ch: u8) -> (r: Option<Vec<MorseElementType>>)
    ensures
        match r {
            Some(v) => pattern_spec(ch) == Some(v@),
            None => pattern_spec(ch) is None,
        },
{
    if ch == 65 || ch == 97 {  // 'A'/'a'
        Some(vec![Dot, Dash])
    } else if ch == 66 || ch == 98 {  // 'B'/'b'
        Some(vec![Dash, Dot, Dot, Dot])
    } else if ch == 67 || ch == 99 {  // 'C'/'c'
        Some(vec![Dash, Dot, Dash, Dot])
    } else if ch == 68 || ch == 100 {  // 'D'/'d'
        Some(vec![Dash, Dot, Dot])
    } else if ch == 69 || ch == 101 {  // 'E'/'e'
        Some(vec![Dot])
    } else if ch == 70 || ch == 102 {  // 'F'/'f'
        Some(vec![Dot, Dot, Dash, Dot])
    } else if ch == 71 || ch == 103 {  // 'G'/'g'
        Some(vec![Dash, Dash, Dot])
    } else if ch == 72 || ch == 104 {  // 'H'/'h'
        Some(vec![Dot, Dot, Dot, Dot])
    } else if ch == 73 || ch == 105 {  // 'I'/'i'
        Some(vec![Dot, Dot])
    } else if ch == 74 || ch == 106 {  // 'J'/'j'
        Some(vec![Dot, Dash, Dash, Dash])
    } else if ch == 75 || ch == 107 {  // 'K'/'k'
        Some(vec![Dash, Dot, Dash])
    } else if ch == 76 || ch == 108 {  // 'L'/'l'
        Some(vec![Dot, Dash, Dot, Dot])
    } else if ch == 77 || ch == 109 {  // 'M'/'m'
        Some(vec![Dash, Dash])
    } else if ch == 78 || ch == 110 {  // 'N'/'n'
        Some(vec![Dash, Dot])
    } else if ch == 79 || ch == 111 {  // 'O'/'o'
        Some(vec![Dash, Dash, Dash])
    } else if ch == 80 || ch == 112 {  // 'P'/'p'
        Some(vec![Dot, Dash, Dash, Dot])
    } else if ch == 81 || ch == 113 {  // 'Q'/'q'
        Some(vec![Dash, Dash, Dot, Dash])
    } else if ch == 82 || ch == 114 {  // 'R'/'r'
        Some(vec![Dot, Dash, Dot])
    } else if ch == 83 || ch == 115 {  // 'S'/'s'
        Some(vec![Dot, Dot, Dot])
    } else if ch == 84 || ch == 116 {  // 'T'/'t'
        Some(vec![Dash])
    } else if ch == 85 || ch == 117 {  // 'U'/'u'
        Some(vec![Dot, Dot, Dash])
    } else if ch == 86 || ch == 118 {  // 'V'/'v'
        Some(vec![Dot, Dot, Dot, Dash])
    } else if ch == 87 || ch == 119 {  // 'W'/'w'
        Some(vec![Dot, Dash, Dash])
    } else if ch == 88 || ch == 120 {  // 'X'/'x'
        Some(vec![Dash, Dot, Dot, Dash])
    } else if ch == 89 || ch == 121 {  // 'Y'/'y'
        Some(vec![Dash, Dot, Dash, Dash])
    } else if ch == 90 || ch == 122 {  // 'Z'/'z'
        Some(vec![Dash, Dash, Dot, Dot])
    } else if ch == 48 {  // '0'
        Some(vec![Dash, Dash, Dash, Dash, Dash])
    } else if ch == 49 {  // '1'
        Some(vec![Dot, Dash, Dash, Dash, Dash])
    } else if ch == 50 {  // '2'
        Some(vec![Dot, Dot, Dash, Dash, Dash])
    } else if ch == 51 {  // '3'
        Some(vec![Dot, Dot, Dot, Dash, Dash])
    } else if ch == 52 {  // '4'
        Some(vec![Dot, Dot, Dot, Dot, Dash])
    } else if ch == 53 {  // '5'
        Some(vec![Dot, Dot, Dot, Dot, Dot])
    } else if ch == 54 {  // '6'
        Some(vec![Dash, Dot, Dot, Dot, Dot])
    } else if ch == 55 {  // '7'
        Some(vec![Dash, Dash, Dot, Dot, Dot])
    } else if ch == 56 {  // '8'
        Some(vec![Dash, Dash, Dash, Dot, Dot])
    } else if ch == 57 {  // '9'
        Some(vec![Dash, Dash, Dash, Dash, Dot])
    } else if ch == 46 {  // '.'
        Some(vec![Dot, Dash, Dot, Dash, Dot, Dash])
    } else if ch == 44 {  // ','
        Some(vec![Dash, Dash, Dot, Dot, Dash, Dash])
    } else if ch == 63 {  // '?'
        Some(vec![Dot, Dot, Dash, Dash, Dot, Dot])
    } else if ch == 39 {  // '''
        Some(vec![Dot, Dash, Dash, Dash, Dash, Dot])
    } else if ch == 33 {  // '!'
        Some(vec![Dash, Dot, Dash, Dot, Dash, Dash])
    } else if ch == 47 {  // '/'
        Some(vec![Dash, Dot, Dot, Dash, Dot])
    } else if ch == 40 {  // '('
        Some(vec![Dash, Dot, Dash, Dash, Dot])
    } else if ch == 41 {  // ')'
        Some(vec![Dash, Dot, Dash, Dash, Dot, Dash])
    } else if ch == 38 {  // '&'
        Some(vec![Dot, Dash, Dot, Dot, Dot])
    } else if ch == 58 {  // ':'
        Some(vec![Dash, Dash, Dash, Dot, Dot, Dot])
    } else if ch == 59 {  // ';'
        Some(vec![Dash, Dot, Dash, Dot, Dash, Dot])
    } else if ch == 61 {  // '='
        Some(vec![Dash, Dot, Dot, Dot, Dash])
    } else if ch == 43 {  // '+'
        Some(vec![Dot, Dash, Dot, Dash, Dot])
    } else if ch == 45 {  // '-'
        Some(vec![Dash, Dot, Dot, Dot, Dot, Dash])
    } else if ch == 95 {  // '_'
        Some(vec![Dot, Dot, Dash, Dash, Dot, Dash])
    } else if ch == 34 {  // '"'
        Some(vec![Dot, Dash, Dot, Dot, Dash, Dot])
    } else if ch == 36 {  // '$'
        Some(vec![Dot, Dot, Dot, Dash, Dot, Dot, Dash])
    } else if ch == 64 {  // '@'
        Some(vec![Dot, Dash, Dash, Dot, Dash, Dot])
    } else {
        None
    }
}

} // verus!

