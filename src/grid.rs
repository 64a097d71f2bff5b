use vstd::prelude::*;

verus! {

/// The mathematical picture of a binary pixel surface: its bounds and the set
/// of pixels that are on, each written `(x, y)` with `x` the column and `y`
/// the row.
pub struct PixelGrid {
    pub width: nat,
    pub height: nat,
    pub lit: Set<(int, int)>,
}

impl PixelGrid {
    /// A surface of the given size with every pixel off.
    pub open spec fn blank(width: nat, height: nat) -> PixelGrid {
        PixelGrid { width, height, lit: Set::empty() }
    }

    /// Every pixel that is on lies inside the bounds.
    pub open spec fn bounded(self) -> bool {
        forall|p: (int, int)|
            #[trigger] self.lit.contains(p) ==> 0 <= p.0 < self.width && 0 <= p.1 < self.height
    }

    /// Whether pixel `(x, y)` is on.
    pub open spec fn on(self, x: int, y: int) -> bool {
        self.lit.contains((x, y))
    }

    /// The surface with its width set to `width`: columns past the new width
    /// are dropped, and new columns are off.
    pub open spec fn with_width(self, width: nat) -> PixelGrid {
        PixelGrid { width, height: self.height, lit: self.lit.filter(|p: (int, int)| p.0 < width) }
    }

    /// `src` composited onto this surface with its top-left corner at
    /// `(x, y)`: the bounds grow to contain it, and a pixel is on when it was
    /// on before or is on in `src`. Pixels that are off in `src` clear nothing.
    pub open spec fn blit(self, src: PixelGrid, x: nat, y: nat) -> PixelGrid {
        PixelGrid {
            width: if self.width >= x + src.width { self.width } else { x + src.width },
            height: if self.height >= y + src.height { self.height } else { y + src.height },
            lit: Set::new(
                |p: (int, int)| self.lit.contains(p) || src.lit.contains((p.0 - x, p.1 - y)),
            ),
        }
    }
    /// The surface whose rows are `rows`, top to bottom; its width is that of
    /// the first row.
    pub open spec fn from_rows(rows: Seq<Seq<bool>>) -> PixelGrid {
        PixelGrid {
            width: if rows.len() == 0 {
                0
            } else {
                rows[0].len()
            },
            height: rows.len(),
            lit: Set::new(
                |p: (int, int)| 0 <= p.1 < rows.len() && 0 <= p.0 < rows[p.1].len() && rows[p.1][p.0],
            ),
        }
    }

    /// Whether every row of `rows` has the same length.
    pub open spec fn rectangular(rows: Seq<Seq<bool>>) -> bool {
        forall|k: int| 0 <= k < rows.len() ==> #[trigger] rows[k].len() == rows[0].len()
    }
}

} // verus!
