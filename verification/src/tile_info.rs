use vstd::prelude::*;
use crate::util::{bit_from_top, get_as_bits};

verus! {

/// The layer that a tile is drawn on.
#[derive(Debug, Clone, Copy, PartialEq, Eq, Structural)]
pub enum TileType {
    Background,
    Window,
    Obj,
}

/// The sixteen bytes of one 8x8 tile, two bytes per row.
#[derive(Debug, PartialEq, Eq)]
pub struct TileInfo {
    pub tile: [u8; 16],
    pub tile_type: TileType,
}

/// The colour id of one pixel of a tile. The first byte of a row holds the
/// low bit of each pixel, the second byte the high bit; the leftmost pixel is
/// in bit 7.
pub open spec fn color_id(tile: Seq<u8>, row: int, col: int) -> int {
    2 * bit_from_top(tile[2 * row + 1], col) + bit_from_top(tile[2 * row], col)
}

impl TileInfo {
    /// The colour ids of the tile, row by row; each is between 0 and 3.
    pub fn get_color_ids_from_tile(&self) -> (result: [[u8; 8]; 8])
        ensures
            forall|row: int, col: int|
                0 <= row < 8 && 0 <= col < 8 ==> #[trigger] result[row][col] == color_id(
                    self.tile@,
                    row,
                    col,
                ),
            forall|row: int, col: int|
                0 <= row < 8 && 0 <= col < 8 ==> #[trigger] result[row][col] <= 3,
    {
        let mut result: [[u8; 8]; 8] = [[0; 8]; 8];
        let mut row: usize = 0;
        while row < 8
            invariant
                row <= 8,
                forall|r: int, c: int|
                    0 <= r < row && 0 <= c < 8 ==> #[trigger] result[r][c] == color_id(
                        self.tile@,
                        r,
                        c,
                    ),
                forall|r: int, c: int| 0 <= r < row && 0 <= c < 8 ==> #[trigger] result[r][c] <= 3,
            decreases 8 - row,
        {
            let lsb = get_as_bits(self.tile[2 * row]);
            let msb = get_as_bits(self.tile[2 * row + 1]);
            let mut line: [u8; 8] = [0; 8];
            let mut bit: usize = 0;
            while bit < 8
                invariant
                    bit <= 8,
                    row < 8,
                    forall|i: int| 0 <= i < 8 ==> lsb[i] == bit_from_top(self.tile[2 * row], i),
                    forall|i: int| 0 <= i < 8 ==> msb[i] == bit_from_top(self.tile[2 * row + 1], i),
                    forall|i: int| 0 <= i < 8 ==> lsb[i] <= 1 && msb[i] <= 1,
                    forall|c: int|
                        0 <= c < bit ==> #[trigger] line[c] == color_id(self.tile@, row as int, c),
                    forall|c: int| 0 <= c < bit ==> #[trigger] line[c] <= 3,
                decreases 8 - bit,
            {
                line[bit] = 2 * msb[bit] + lsb[bit];
                bit += 1;
            }
            result[row] = line;
            row += 1;
        }
        result
    }
}

} // verus!
