//! Decomposition of a glyph code into drawable parts: indices into the
//! bitmap font atlas used by the bitmap-based backend.
//!
//! Symbol and digit codes map to one atlas index each; any other code maps
//! to a fixed three-part "missing glyph" placeholder, a deliberate visible
//! degradation rather than a failure.

use vstd::prelude::*;

verus! {

/// First atlas index of the "missing character" piece block.
pub const MISSING_CHARACTER_PIECES_START: u32 = 1;

/// Number of atlas indices reserved for "missing character" pieces.
pub const MISSING_CHARACTER_PIECES_COUNT: u32 = 16 * 8;

/// Atlas index of the first fixed symbol.
pub const SYMBOLS_1: u32 = MISSING_CHARACTER_PIECES_START + MISSING_CHARACTER_PIECES_COUNT;

/// Atlas index of the digit `0`.
pub const DIGITS_START: u32 = SYMBOLS_1 + 10;

/// The atlas indices a glyph code draws as: one index for each symbol or
/// digit code, and the fixed three-part placeholder for every other code.
pub open spec fn parts_of_glyph(glyph: u32) -> Seq<u32> {
    if glyph <= 9 {
        seq![(SYMBOLS_1 + glyph) as u32]
    } else if 10 <= glyph && glyph <= 18 {
        seq![(DIGITS_START + (glyph - 10)) as u32]
    } else if glyph == 19 {
        seq![(DIGITS_START + 10) as u32]
    } else {
        seq![0u32, 1u32, 19u32]
    }
}

/// Maps a glyph code to the atlas indices that draw it.
pub fn glyph_to_parts(glyph: u32) -> (r: Vec<u32>)
    ensures
        r@ == parts_of_glyph(glyph),
{
    let simple: u32 = match glyph {
        0 => SYMBOLS_1,
        1 => SYMBOLS_1 + 1,
        2 => SYMBOLS_1 + 2,
        3 => SYMBOLS_1 + 3,
        4 => SYMBOLS_1 + 4,
        5 => SYMBOLS_1 + 5,
        6 => SYMBOLS_1 + 6,
        7 => SYMBOLS_1 + 7,
        8 => SYMBOLS_1 + 8,
        9 => SYMBOLS_1 + 9,
        10 => DIGITS_START,
        11 => DIGITS_START + 1,
        12 => DIGITS_START + 2,
        13 => DIGITS_START + 3,
        14 => DIGITS_START + 4,
        15 => DIGITS_START + 5,
        16 => DIGITS_START + 6,
        17 => DIGITS_START + 7,
        18 => DIGITS_START + 8,
        19 => DIGITS_START + 10,
        _ => {
            let fallback = vec![0u32, 1, 19];
            proof {
                assert(fallback@ =~= parts_of_glyph(glyph));
            }
            return fallback;
        },
    };
    let r = vec![simple];
    proof {
        assert(r@ =~= parts_of_glyph(glyph));
    }
    r
}

} // verus!
