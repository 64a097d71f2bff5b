use vstd::prelude::*;

use crate::grid::PixelGrid;

verus! {

/// The number of rows of every glyph.
pub const GLYPH_ROWS: u8 = 9;

/// The largest number of columns a glyph may have.
pub const MAX_GLYPH_COLS: u8 = 6;

/// One character's picture: `cols` columns by `GLYPH_ROWS` rows.
///
/// The pixels are packed into `bits` row by row, the top row first and each
/// row from left to right, so that the rightmost pixel of the bottom row is
/// the least significant bit. Written in binary with one `_` between rows, the
/// literal reads as the picture.
#[derive(Clone, Copy, Debug, PartialEq, Eq, Structural)]
pub struct Glyph {
    pub cols: u8,
    pub bits: u64,
}

impl View for Glyph {
    type V = PixelGrid;

    open spec fn view(&self) -> PixelGrid {
        PixelGrid {
            width: self.cols as nat,
            height: GLYPH_ROWS as nat,
            lit: Set::new(|p: (int, int)| self.on(p.0, p.1)),
        }
    }
}

impl Glyph {
    /// The glyph made of one entry of a font table: its width and its pixels.
    pub open spec fn from_entry(entry: (u8, u64)) -> Glyph {
        Glyph { cols: entry.0, bits: entry.1 }
    }

    /// The glyph has at least one column and fits in `bits`.
    pub open spec fn wf(self) -> bool {
        1 <= self.cols <= MAX_GLYPH_COLS
    }

    /// The position in `bits` of pixel `(x, y)`.
    pub open spec fn bit_index(self, x: int, y: int) -> int {
        (GLYPH_ROWS - 1 - y) * self.cols + (self.cols - 1 - x)
    }

    /// Whether pixel `(x, y)` of the glyph is on.
    pub open spec fn on(self, x: int, y: int) -> bool {
        &&& 0 <= x < self.cols
        &&& 0 <= y < GLYPH_ROWS
        &&& (self.bits >> (self.bit_index(x, y) as u64)) & 1 == 1
    }

    /// The glyph's pixels as rows of on/off values, top to bottom.
    pub fn rows(&self) -> (rows: Vec<Vec<bool>>)
        requires
            self.wf(),
        ensures
            PixelGrid::rectangular(rows@.map_values(|r: Vec<bool>| r@)),
            PixelGrid::from_rows(rows@.map_values(|r: Vec<bool>| r@)) == self@,
    {
        let cols = self.cols as usize;
        let mut rows: Vec<Vec<bool>> = Vec::new();
        let mut y: usize = 0;
        while y < GLYPH_ROWS as usize
            invariant
                self.wf(),
                cols == self.cols,
                y <= GLYPH_ROWS,
                rows@.len() == y,
                forall|k: int| 0 <= k < y ==> #[trigger] rows@[k]@.len() == cols,
                forall|i: int, k: int|
                    0 <= k < y && 0 <= i < cols ==> #[trigger] rows@[k]@[i] == self.on(i, k),
            decreases GLYPH_ROWS - y,
        {
            assert((8 - y) * cols <= 48) by (nonlinear_arith)
                requires
                    y < 9,
                    cols <= 6,
            ;
            let row_base = ((8 - y) * cols) as u64;
            let mut row: Vec<bool> = Vec::new();
            let mut x: usize = 0;
            while x < cols
                invariant
                    self.wf(),
                    cols == self.cols,
                    y < GLYPH_ROWS,
                    row_base == (GLYPH_ROWS - 1 - y) * cols,
                    row_base <= 48,
                    x <= cols,
                    row@.len() == x,
                    forall|i: int| 0 <= i < x ==> #[trigger] row@[i] == self.on(i, y as int),
                decreases cols - x,
            {
                let shift = row_base + (cols - 1 - x) as u64;
                assert(shift == self.bit_index(x as int, y as int));
                row.push((self.bits >> shift) & 1 == 1);
                x += 1;
            }
            rows.push(row);
            y += 1;
        }
        let ghost cells = rows@.map_values(|r: Vec<bool>| r@);
        assert(PixelGrid::from_rows(cells).lit =~= self@.lit);
        rows
    }
}

} // verus!
