//! The glyph codec: a bidirectional mapping between printable characters and
//! compact integer glyph codes.
//!
//! The code space is partitioned into disjoint ranges: `0..=9` are fixed
//! symbols (space, `_`, `-`, `.`, `,`, `/`, `\`, `:`, `;`, `@`), `10..=19` are
//! the digits `0`-`9`, `0x1000 + 16*n` for `n = 0..26` are the lowercase
//! letters, and `0x3000 + 16*n` are the uppercase letters. Any code with a
//! nonzero low nibble inside a letter range, or outside every range, decodes
//! to nothing.

use unicode_segmentation::UnicodeSegmentation;
use vstd::prelude::*;

verus! {

use vstd::string::StrSliceExecFns;

/// Integer identifier for one drawable grid cell's character.
pub type GlyphCode = u32;

/// The glyph code of one character, if the character is supported.
pub open spec fn code_of_char(c: char) -> Option<GlyphCode> {
    if 'a' <= c && c <= 'z' {
        Some((0x1000 + (c as u32 - 'a' as u32) * 16) as u32)
    } else if 'A' <= c && c <= 'Z' {
        Some((0x3000 + (c as u32 - 'A' as u32) * 16) as u32)
    } else if c == ' ' {
        Some(0u32)
    } else if c == '_' {
        Some(1u32)
    } else if c == '-' {
        Some(2u32)
    } else if c == '.' {
        Some(3u32)
    } else if c == ',' {
        Some(4u32)
    } else if c == '/' {
        Some(5u32)
    } else if c == '\\' {
        Some(6u32)
    } else if c == ':' {
        Some(7u32)
    } else if c == ';' {
        Some(8u32)
    } else if c == '@' {
        Some(9u32)
    } else if '0' <= c && c <= '9' {
        Some((10 + (c as u32 - '0' as u32)) as u32)
    } else {
        None
    }
}

/// The character a glyph code stands for, if the code lies in a defined range
/// with a zero low nibble.
pub open spec fn char_of_code(code: GlyphCode) -> Option<char> {
    if 0x1000 <= code && code < 0x11A0 && code % 16 == 0 {
        Some(('a' as u32 + (code - 0x1000) / 16) as char)
    } else if 0x3000 <= code && code < 0x31A0 && code % 16 == 0 {
        Some(('A' as u32 + (code - 0x3000) / 16) as char)
    } else if code == 0 {
        Some(' ')
    } else if code == 1 {
        Some('_')
    } else if code == 2 {
        Some('-')
    } else if code == 3 {
        Some('.')
    } else if code == 4 {
        Some(',')
    } else if code == 5 {
        Some('/')
    } else if code == 6 {
        Some('\\')
    } else if code == 7 {
        Some(':')
    } else if code == 8 {
        Some(';')
    } else if code == 9 {
        Some('@')
    } else if 10 <= code && code <= 19 {
        Some(('0' as u32 + (code - 10)) as char)
    } else {
        None
    }
}

/// Maps a supported character (ASCII letter, digit, or fixed symbol) to its
/// glyph code; anything else is unsupported.
pub fn from_char(ch: char) -> (r: Option<GlyphCode>)
    ensures
        r == code_of_char(ch),
{
    let c = ch as u32;
    if 97 <= c && c <= 122 {
        return Some(0x1000 + (c - 97) * 16);
    }
    if 65 <= c && c <= 90 {
        return Some(0x3000 + (c - 65) * 16);
    }
    match ch {
        ' ' => Some(0),
        '_' => Some(1),
        '-' => Some(2),
        '.' => Some(3),
        ',' => Some(4),
        '/' => Some(5),
        '\\' => Some(6),
        ':' => Some(7),
        ';' => Some(8),
        '@' => Some(9),
        '0' => Some(10),
        '1' => Some(11),
        '2' => Some(12),
        '3' => Some(13),
        '4' => Some(14),
        '5' => Some(15),
        '6' => Some(16),
        '7' => Some(17),
        '8' => Some(18),
        '9' => Some(19),
        _ => None,
    }
}

/// Maps a glyph code back to its character; yields nothing for a code with a
/// nonzero low nibble inside a letter range or outside every defined range,
/// never a substitute guess.
pub fn as_char(character: GlyphCode) -> (r: Option<char>)
    ensures
        r == char_of_code(character),
{
    let lower_a_code: u32 = 0x1000;
    let after_lowers: u32 = lower_a_code + 26 * 16;
    if lower_a_code <= character && character < after_lowers && character % 16 == 0 {
        let n = (character - lower_a_code) / 16;
        return Some((97 + n as u8) as char);
    }

    let upper_a_code: u32 = 0x3000;
    let after_uppers: u32 = upper_a_code + 26 * 16;
    if upper_a_code <= character && character < after_uppers && character % 16 == 0 {
        let n = (character - upper_a_code) / 16;
        return Some((65 + n as u8) as char);
    }

    match character {
        0 => Some(' '),
        1 => Some('_'),
        2 => Some('-'),
        3 => Some('.'),
        4 => Some(','),
        5 => Some('/'),
        6 => Some('\\'),
        7 => Some(':'),
        8 => Some(';'),
        9 => Some('@'),
        10 => Some('0'),
        11 => Some('1'),
        12 => Some('2'),
        13 => Some('3'),
        14 => Some('4'),
        15 => Some('5'),
        16 => Some('6'),
        17 => Some('7'),
        18 => Some('8'),
        19 => Some('9'),
        _ => None,
    }
}

/// Encoding a supported character and decoding the result is the identity.
pub proof fn lemma_encode_then_decode(c: char)
    ensures
        code_of_char(c) matches Some(code) ==> char_of_code(code) == Some(c),
{
}

/// A code with a nonzero low nibble inside a letter range, or outside every
/// defined range, is not decodable.
pub proof fn lemma_undecodable(code: GlyphCode)
    requires
        ((0x1000 <= code && code < 0x11A0) || (0x3000 <= code && code < 0x31A0)) && code % 16 != 0
            || !(code <= 19) && !(0x1000 <= code && code < 0x11A0) && !(0x3000 <= code && code
            < 0x31A0),
    ensures
        char_of_code(code) is None,
{
}

/// Whether every code in the sequence is decodable.
pub open spec fn all_decodable(codes: Seq<GlyphCode>) -> bool {
    forall|i: int| 0 <= i < codes.len() ==> char_of_code(#[trigger] codes[i]) is Some
}

/// The decoding of a whole sequence of glyph codes; fails as a whole if any
/// element fails.
pub open spec fn decoded_chars(codes: Seq<GlyphCode>) -> Option<Seq<char>> {
    if all_decodable(codes) {
        Some(Seq::new(codes.len(), |i: int| char_of_code(codes[i])->0))
    } else {
        None
    }
}

/// Whether every grapheme cluster is exactly one encodable character.
pub open spec fn encodable_graphemes(gs: Seq<Seq<char>>) -> bool {
    forall|i: int|
        0 <= i < gs.len() ==> (#[trigger] gs[i]).len() == 1 && code_of_char(gs[i][0]) is Some
}

/// The encoding of a sequence of grapheme clusters; fails as a whole if any
/// cluster is not exactly one encodable character.
pub open spec fn encoded_codes(gs: Seq<Seq<char>>) -> Option<Seq<GlyphCode>> {
    if encodable_graphemes(gs) {
        Some(Seq::new(gs.len(), |i: int| code_of_char(gs[i][0])->0))
    } else {
        None
    }
}

/// What splitting a string into extended grapheme clusters yields.
pub uninterp spec fn graphemes_of(s: Seq<char>) -> Seq<Seq<char>>;

/// Relies on `UnicodeSegmentation::graphemes` for `str`: the extended
/// grapheme clusters are consecutive non-empty substrings of the input, so
/// their concatenation is the input itself.
#[verifier::external_body]
fn split_graphemes(s: &str) -> (r: Vec<String>)
    ensures
        r.deep_view() == graphemes_of(s@),
        r.deep_view().flatten() == s@,
        forall|i: int| 0 <= i < r.deep_view().len() ==> (#[trigger] r.deep_view()[i]).len() > 0,
{
    UnicodeSegmentation::graphemes(s, true).map(|g| g.to_string()).collect()
}

/// Relies on `String::push`: appends the given character to the end of the
/// string.
pub assume_specification[ String::push ](s: &mut String, ch: char)
    ensures
        final(s)@ == old(s)@.push(ch),
;

/// Decodes every element of the slice into one character each; fails as a
/// whole (no partial result) if any element fails.
pub fn to_string(glyphcodes: &[GlyphCode]) -> (r: Option<String>)
    ensures
        match r {
            Some(s) => decoded_chars(glyphcodes@) == Some(s@),
            None => decoded_chars(glyphcodes@) is None,
        },
{
    let mut accum = String::new();
    let mut k: usize = 0;
    while k < glyphcodes.len()
        invariant
            k <= glyphcodes@.len(),
            forall|i: int| 0 <= i < k ==> char_of_code(#[trigger] glyphcodes@[i]) is Some,
            accum@ == Seq::new(k as nat, |i: int| char_of_code(glyphcodes@[i])->0),
        decreases glyphcodes@.len() - k,
    {
        match as_char(glyphcodes[k]) {
            Some(ch) => {
                accum.push(ch);
                proof {
                    assert(accum@ =~= Seq::new(
                        (k + 1) as nat,
                        |i: int| char_of_code(glyphcodes@[i])->0,
                    ));
                }
            },
            None => {
                return None;
            },
        }
        k = k + 1;
    }
    proof {
        assert(accum@ =~= decoded_chars(glyphcodes@)->0);
    }
    Some(accum)
}

/// Splits the text into user-perceived characters (grapheme clusters) and
/// encodes each; fails as a whole if any cluster is not exactly one
/// supported character.
pub fn from_str(s: &str) -> (r: Option<Vec<GlyphCode>>)
    ensures
        match r {
            Some(codes) => {
                &&& encoded_codes(graphemes_of(s@)) == Some(codes@)
                &&& decoded_chars(codes@) == Some(s@)
            },
            None => encoded_codes(graphemes_of(s@)) is None,
        },
{
    let gs = split_graphemes(s);
    let ghost gseq = graphemes_of(s@);
    let mut accum: Vec<GlyphCode> = Vec::new();
    let mut k: usize = 0;
    while k < gs.len()
        invariant
            k <= gs@.len(),
            gs.deep_view() == gseq,
            gseq == graphemes_of(s@),
            forall|i: int|
                0 <= i < k ==> (#[trigger] gseq[i]).len() == 1 && code_of_char(gseq[i][0]) is Some,
            accum@ == Seq::new(k as nat, |i: int| code_of_char(gseq[i][0])->0),
        decreases gs@.len() - k,
    {
        let g = &gs[k];
        assert(g@ == gseq[k as int]);
        if g.as_str().unicode_len() != 1 {
            return None;
        }
        let ch = g.as_str().get_char(0);
        match from_char(ch) {
            Some(code) => {
                accum.push(code);
                proof {
                    assert(accum@ =~= Seq::new(
                        (k + 1) as nat,
                        |i: int| code_of_char(gseq[i][0])->0,
                    ));
                }
            },
            None => {
                return None;
            },
        }
        k = k + 1;
    }
    proof {
        assert(accum@ =~= encoded_codes(gseq)->0);
        lemma_string_round_trip(gseq);
    }
    Some(accum)
}

/// The concatenation of a sequence of single-character clusters is the
/// sequence of those characters.
proof fn lemma_flatten_singletons(gs: Seq<Seq<char>>)
    requires
        forall|i: int| 0 <= i < gs.len() ==> (#[trigger] gs[i]).len() == 1,
    ensures
        gs.flatten() =~= Seq::new(gs.len(), |i: int| gs[i][0]),
    decreases gs.len(),
{
    if gs.len() == 0 {
    } else {
        lemma_flatten_singletons(gs.drop_first());
        assert(gs.flatten() == gs.first() + gs.drop_first().flatten());
        assert forall|i: int| 0 <= i < gs.len() implies gs.flatten()[i] == gs[i][0] by {
            if i > 0 {
                assert(gs.drop_first().flatten()[i - 1] == gs.drop_first()[i - 1][0]);
            }
        }
    }
}

/// String-level round trip: a sequence of grapheme clusters that encodes as
/// a whole decodes back to exactly its own concatenation.
pub proof fn lemma_string_round_trip(gs: Seq<Seq<char>>)
    requires
        encoded_codes(gs) is Some,
    ensures
        decoded_chars(encoded_codes(gs)->0) == Some(gs.flatten()),
{
    let codes = encoded_codes(gs)->0;
    assert forall|i: int| 0 <= i < codes.len() implies char_of_code(#[trigger] codes[i]) == Some(
        gs[i][0],
    ) by {
        lemma_encode_then_decode(gs[i][0]);
    }
    lemma_flatten_singletons(gs);
    assert(decoded_chars(codes)->0 =~= gs.flatten());
}

} // verus!
