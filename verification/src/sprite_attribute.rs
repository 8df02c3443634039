use vstd::prelude::*;
use crate::util::{bit_from_top, get_as_bits};

verus! {

/// One entry of the sprite attribute table.
#[derive(Debug)]
pub struct SpriteAttribute {
    pub y: u8,
    pub x: u8,
    pub index: u8,
    pub bg_over_obj: bool,
    pub y_flip: bool,
    pub x_flip: bool,
    pub palette: u8,
}

impl SpriteAttribute {
    /// The entry that the four bytes of a table slot describe. Of the flag
    /// byte, bit 7 puts the background over the sprite, bit 6 flips it
    /// vertically, bit 5 horizontally, and bit 4 picks the palette.
    pub open spec fn decode(y: u8, x: u8, index: u8, flags: u8) -> SpriteAttribute {
        SpriteAttribute {
            y,
            x,
            index,
            bg_over_obj: bit_from_top(flags, 0) == 1,
            y_flip: bit_from_top(flags, 1) == 1,
            x_flip: bit_from_top(flags, 2) == 1,
            palette: bit_from_top(flags, 3),
        }
    }

    /// Reads the entry out of the four bytes of a table slot.
    pub fn new(y: u8, x: u8, index: u8, flags: u8) -> (r: SpriteAttribute)
        ensures
            r == Self::decode(y, x, index, flags),
            r.palette <= 1,
    {
        let flag_bits = get_as_bits(flags);
        let bg_over_obj = flag_bits[0] == 1;
        let y_flip = flag_bits[1] == 1;
        let x_flip = flag_bits[2] == 1;
        let palette = flag_bits[3];
        SpriteAttribute { y, x, index, bg_over_obj, y_flip, x_flip, palette }
    }
}

} // verus!
