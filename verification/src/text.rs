//! Decoded text as verified strings.
//!
//! The decoder assembles its output one character at a time. Each byte
//! it can emit (a trie terminal or the space) has a one-character
//! string here, so the accumulated `String` is specified exactly as
//! the sequence of emitted characters.

use vstd::prelude::*;
use crate::patterns::is_text_byte;

verus! {

/// The characters that decoded text may contain, as characters.
pub open spec fn is_text_char(c: char) -> bool {
    (c as u32) < 256 && is_text_byte((c as u32) as u8)
}

/// How many characters of a text are not spaces.
pub open spec fn count_nonspace(s: Seq<char>) -> int
    decreases s.len(),
{
    if s.len() == 0 {
        0
    } else {
        count_nonspace(s.drop_last()) + if s.last() == ' ' {
            0int
        } else {
            1int
        }
    }
}

/// The non-space count never exceeds the length.
pub proof fn lemma_count_nonspace_le_len(s: Seq<char>)
    ensures
        0 <= count_nonspace(s) <= s.len(),
    decreases s.len(),
{
    if s.len() > 0 {
        lemma_count_nonspace_le_len(s.drop_last());
    }
}

/// The one-character string of an emittable byte.
pub fn char_str(b: u8) -> (s: &'static str)
    requires
        is_text_byte(b),
    ensures
        s@ =~= seq![b as char],
{
    if b == 65 {
        proof {
            reveal_strlit("A");
            assert(("A")@ =~= seq![b as char]);
        }
        "A"
    } else if b == 66 {
        proof {
            reveal_strlit("B");
            assert(("B")@ =~= seq![b as char]);
        }
        "B"
    } else if b == 67 {
        proof {
            reveal_strlit("C");
            assert(("C")@ =~= seq![b as char]);
        }
        "C"
    } else if b == 68 {
        proof {
            reveal_strlit("D");
            assert(("D")@ =~= seq![b as char]);
        }
        "D"
    } else if b == 69 {
        proof {
            reveal_strlit("E");
            assert(("E")@ =~= seq![b as char]);
        }
        "E"
    } else if b == 70 {
        proof {
            reveal_strlit("F");
            assert(("F")@ =~= seq![b as char]);
        }
        "F"
    } else if b == 71 {
        proof {
            reveal_strlit("G");
            assert(("G")@ =~= seq![b as char]);
        }
        "G"
    } else if b == 72 {
        proof {
            reveal_strlit("H");
            assert(("H")@ =~= seq![b as char]);
        }
        "H"
    } else if b == 73 {
        proof {
            reveal_strlit("I");
            assert(("I")@ =~= seq![b as char]);
        }
        "I"
    } else if b == 74 {
        proof {
            reveal_strlit("J");
            assert(("J")@ =~= seq![b as char]);
        }
        "J"
    } else if b == 75 {
        proof {
            reveal_strlit("K");
            assert(("K")@ =~= seq![b as char]);
        }
        "K"
    } else if b == 76 {
        proof {
            reveal_strlit("L");
            assert(("L")@ =~= seq![b as char]);
        }
        "L"
    } else if b == 77 {
        proof {
            reveal_strlit("M");
            assert(("M")@ =~= seq![b as char]);
        }
        "M"
    } else if b == 78 {
        proof {
            reveal_strlit("N");
            assert(("N")@ =~= seq![b as char]);
        }
        "N"
    } else if b == 79 {
        proof {
            reveal_strlit("O");
            assert(("O")@ =~= seq![b as char]);
        }
        "O"
    } else if b == 80 {
        proof {
            reveal_strlit("P");
            assert(("P")@ =~= seq![b as char]);
        }
        "P"
    } else if b == 81 {
        proof {
            reveal_strlit("Q");
            assert(("Q")@ =~= seq![b as char]);
        }
        "Q"
    } else if b == 82 {
        proof {
            reveal_strlit("R");
            assert(("R")@ =~= seq![b as char]);
        }
        "R"
    } else if b == 83 {
        proof {
            reveal_strlit("S");
            assert(("S")@ =~= seq![b as char]);
        }
        "S"
    } else if b == 84 {
        proof {
            reveal_strlit("T");
            assert(("T")@ =~= seq![b as char]);
        }
        "T"
    } else if b == 85 {
        proof {
            reveal_strlit("U");
            assert(("U")@ =~= seq![b as char]);
        }
        "U"
    } else if b == 86 {
        proof {
            reveal_strlit("V");
            assert(("V")@ =~= seq![b as char]);
        }
        "V"
    } else if b == 87 {
        proof {
            reveal_strlit("W");
            assert(("W")@ =~= seq![b as char]);
        }
        "W"
    } else if b == 88 {
        proof {
            reveal_strlit("X");
            assert(("X")@ =~= seq![b as char]);
        }
        "X"
    } else if b == 89 {
        proof {
            reveal_strlit("Y");
            assert(("Y")@ =~= seq![b as char]);
        }
        "Y"
    } else if b == 90 {
        proof {
            reveal_strlit("Z");
            assert(("Z")@ =~= seq![b as char]);
        }
        "Z"
    } else if b == 48 {
        proof {
            reveal_strlit("0");
            assert(("0")@ =~= seq![b as char]);
        }
        "0"
    } else if b == 49 {
        proof {
            reveal_strlit("1");
            assert(("1")@ =~= seq![b as char]);
        }
        "1"
    } else if b == 50 {
        proof {
            reveal_strlit("2");
            assert(("2")@ =~= seq![b as char]);
        }
        "2"
    } else if b == 51 {
        proof {
            reveal_strlit("3");
            assert(("3")@ =~= seq![b as char]);
        }
        "3"
    } else if b == 52 {
        proof {
            reveal_strlit("4");
            assert(("4")@ =~= seq![b as char]);
        }
        "4"
    } else if b == 53 {
        proof {
            reveal_strlit("5");
            assert(("5")@ =~= seq![b as char]);
        }
        "5"
    } else if b == 54 {
        proof {
            reveal_strlit("6");
            assert(("6")@ =~= seq![b as char]);
        }
        "6"
    } else if b == 55 {
        proof {
            reveal_strlit("7");
            assert(("7")@ =~= seq![b as char]);
        }
        "7"
    } else if b == 56 {
        proof {
            reveal_strlit("8");
            assert(("8")@ =~= seq![b as char]);
        }
        "8"
    } else if b == 57 {
        proof {
            reveal_strlit("9");
            assert(("9")@ =~= seq![b as char]);
        }
        "9"
    } else if b == 46 {
        proof {
            reveal_strlit(".");
            assert((".")@ =~= seq![b as char]);
        }
        "."
    } else if b == 44 {
        proof {
            reveal_strlit(",");
            assert((",")@ =~= seq![b as char]);
        }
        ","
    } else if b == 63 {
        proof {
            reveal_strlit("?");
            assert(("?")@ =~= seq![b as char]);
        }
        "?"
    } else if b == 39 {
        proof {
            reveal_strlit("'");
            assert(("'")@ =~= seq![b as char]);
        }
        "'"
    } else if b == 33 {
        proof {
            reveal_strlit("!");
            assert(("!")@ =~= seq![b as char]);
        }
        "!"
    } else if b == 47 {
        proof {
            reveal_strlit("/");
            assert(("/")@ =~= seq![b as char]);
        }
        "/"
    } else if b == 40 {
        proof {
            reveal_strlit("(");
            assert(("(")@ =~= seq![b as char]);
        }
        "("
    } else if b == 41 {
        proof {
            reveal_strlit(")");
            assert((")")@ =~= seq![b as char]);
        }
        ")"
    } else if b == 38 {
        proof {
            reveal_strlit("&");
            assert(("&")@ =~= seq![b as char]);
        }
        "&"
    } else if b == 58 {
        proof {
            reveal_strlit(":");
            assert((":")@ =~= seq![b as char]);
        }
        ":"
    } else if b == 59 {
        proof {
            reveal_strlit(";");
            assert((";")@ =~= seq![b as char]);
        }
        ";"
    } else if b == 61 {
        proof {
            reveal_strlit("=");
            assert(("=")@ =~= seq![b as char]);
        }
        "="
    } else if b == 43 {
        proof {
            reveal_strlit("+");
            assert(("+")@ =~= seq![b as char]);
        }
        "+"
    } else if b == 45 {
        proof {
            reveal_strlit("-");
            assert(("-")@ =~= seq![b as char]);
        }
        "-"
    } else if b == 95 {
        proof {
            reveal_strlit("_");
            assert(("_")@ =~= seq![b as char]);
        }
        "_"
    } else if b == 34 {
        proof {
            reveal_strlit("\"");
            assert(("\"")@ =~= seq![b as char]);
        }
        "\""
    } else if b == 36 {
        proof {
            reveal_strlit("$");
            assert(("$")@ =~= seq![b as char]);
        }
        "$"
    } else if b == 64 {
        proof {
            reveal_strlit("@");
            assert(("@")@ =~= seq![b as char]);
        }
        "@"
    } else {
        proof {
            reveal_strlit(" ");
            assert((" ")@ =~= seq![b as char]);
        }
        " "
    }
}

} // verus!
