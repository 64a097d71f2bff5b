use vstd::prelude::*;

use crate::grid::PixelGrid;

verus! {

/// A growable surface of on/off pixels, stored row by row.
#[derive(Debug, PartialEq, Eq)]
pub struct Canvas {
    width: usize,
    height: usize,
    rows: Vec<Vec<bool>>,
}

impl View for Canvas {
    type V = PixelGrid;

    closed spec fn view(&self) -> PixelGrid {
        PixelGrid {
            width: self.width as nat,
            height: self.height as nat,
            lit: Set::new(
                |p: (int, int)|
                    0 <= p.1 < self.height && 0 <= p.0 < self.width && self.rows@[p.1]@[p.0],
            ),
        }
    }
}

/// A row of `len` pixels, all off.
fn blank_row(len: usize) -> (row: Vec<bool>)
    ensures
        row@ == Seq::new(len as nat, |i: int| false),
{
    let mut row: Vec<bool> = Vec::new();
    let mut i: usize = 0;
    while i < len
        invariant
            i <= len,
            row@ == Seq::new(i as nat, |k: int| false),
        decreases len - i,
    {
        row.push(false);
        i += 1;
        assert(row@ =~= Seq::new(i as nat, |k: int| false));
    }
    row
}

impl Canvas {
    #[verifier::type_invariant]
    spec fn well_formed(self) -> bool {
        &&& self.rows@.len() == self.height
        &&& forall|y: int| 0 <= y < self.height ==> #[trigger] self.rows@[y]@.len() == self.width
    }

    /// Every pixel that is on lies inside the canvas.
    pub proof fn lemma_bounded(&self)
        ensures
            self@.bounded(),
    {
    }

    /// A canvas of the given size with every pixel off.
    pub fn new(width: usize, height: usize) -> (c: Canvas)
        ensures
            c@ == PixelGrid::blank(width as nat, height as nat),
    {
        let mut rows: Vec<Vec<bool>> = Vec::new();
        let mut y: usize = 0;
        while y < height
            invariant
                y <= height,
                rows@.len() == y,
                forall|k: int| 0 <= k < y ==> #[trigger] rows@[k]@ == Seq::new(width as nat, |i: int| false),
            decreases height - y,
        {
            rows.push(blank_row(width));
            y += 1;
        }
        let c = Canvas { width, height, rows };
        assert(c@.lit =~= Set::empty());
        c
    }

    /// The number of columns.
    pub fn width(&self) -> (w: usize)
        ensures
            w == self@.width,
    {
        self.width
    }

    /// The number of rows.
    pub fn height(&self) -> (h: usize)
        ensures
            h == self@.height,
    {
        self.height
    }

    /// Whether pixel `(x, y)` is on; a pixel outside the canvas is off.
    pub fn get(&self, x: usize, y: usize) -> (on: bool)
        ensures
            on == self@.on(x as int, y as int),
    {
        proof {
            use_type_invariant(self);
        }
        if y < self.height && x < self.width {
            self.rows[y][x]
        } else {
            false
        }
    }
    /// Sets the number of columns: columns past `width` are dropped, and new
    /// columns are off.
    pub fn set_width(&mut self, width: usize)
        ensures
            final(self)@ == old(self)@.with_width(width as nat),
    {
        proof {
            use_type_invariant(&*self);
        }
        let height = self.height;
        let mut rows: Vec<Vec<bool>> = Vec::new();
        let mut y: usize = 0;
        while y < height
            invariant
                height == old(self)@.height,
                y <= height,
                rows@.len() == y,
                forall|k: int| 0 <= k < y ==> #[trigger] rows@[k]@.len() == width,
                forall|i: int, k: int|
                    0 <= k < y && 0 <= i < width ==> #[trigger] rows@[k]@[i] == old(self)@.on(
                        i,
                        k,
                    ),
            decreases height - y,
        {
            let mut row: Vec<bool> = Vec::new();
            let mut x: usize = 0;
            while x < width
                invariant
                    x <= width,
                    row@.len() == x,
                    forall|i: int| 0 <= i < x ==> #[trigger] row@[i] == old(self)@.on(i, y as int),
                decreases width - x,
            {
                row.push(self.get(x, y));
                x += 1;
            }
            rows.push(row);
            y += 1;
        }
        *self = Canvas { width, height, rows };
        proof {
            old(self).lemma_bounded();
        }
        assert(self@.lit =~= old(self)@.with_width(width as nat).lit);
    }

    /// Composites `src` onto this canvas with its top-left corner at `pos`
    /// (column, row). The canvas grows to contain `src`; pixels that are on in
    /// `src` are turned on, and pixels that are off in it change nothing.
    pub fn blit(&mut self, src: &Canvas, pos: (usize, usize))
        requires
            pos.0 + src@.width <= usize::MAX,
            pos.1 + src@.height <= usize::MAX,
        ensures
            final(self)@ == old(self)@.blit(src@, pos.0 as nat, pos.1 as nat),
    {
        proof {
            use_type_invariant(&*self);
            use_type_invariant(src);
        }
        let (x0, y0) = pos;
        let width = if self.width >= x0 + src.width {
            self.width
        } else {
            x0 + src.width
        };
        let height = if self.height >= y0 + src.height {
            self.height
        } else {
            y0 + src.height
        };
        let mut rows: Vec<Vec<bool>> = Vec::new();
        let mut y: usize = 0;
        while y < height
            invariant
                y <= height,
                rows@.len() == y,
                forall|k: int| 0 <= k < y ==> #[trigger] rows@[k]@.len() == width,
                forall|i: int, k: int|
                    0 <= k < y && 0 <= i < width ==> #[trigger] rows@[k]@[i] == (old(self)@.on(
                        i,
                        k,
                    ) || src@.on(i - x0, k - y0)),
            decreases height - y,
        {
            let mut row: Vec<bool> = Vec::new();
            let mut x: usize = 0;
            while x < width
                invariant
                    x <= width,
                    row@.len() == x,
                    forall|i: int|
                        0 <= i < x ==> #[trigger] row@[i] == (old(self)@.on(i, y as int) || src@.on(
                            i - x0,
                            y - y0,
                        )),
                decreases width - x,
            {
                let on = self.get(x, y) || (x >= x0 && y >= y0 && src.get(x - x0, y - y0));
                row.push(on);
                x += 1;
            }
            rows.push(row);
            y += 1;
        }
        *self = Canvas { width, height, rows };
        proof {
            old(self).lemma_bounded();
            src.lemma_bounded();
        }
        assert(self@.lit =~= old(self)@.blit(src@, x0 as nat, y0 as nat).lit);
    }
    /// A canvas holding `grid`, given row by row, top to bottom.
    pub fn from_slice(grid: &[Vec<bool>]) -> (c: Canvas)
        requires
            PixelGrid::rectangular(grid@.map_values(|r: Vec<bool>| r@)),
        ensures
            c@ == PixelGrid::from_rows(grid@.map_values(|r: Vec<bool>| r@)),
    {
        let ghost cells = grid@.map_values(|r: Vec<bool>| r@);
        let height = grid.len();
        let width = if height == 0 {
            0
        } else {
            grid[0].len()
        };
        assert(forall|k: int| 0 <= k < height ==> #[trigger] grid@[k]@.len() == width) by {
            assert(forall|k: int| 0 <= k < height ==> cells[k] == #[trigger] grid@[k]@);
        }
        let mut rows: Vec<Vec<bool>> = Vec::new();
        let mut y: usize = 0;
        while y < height
            invariant
                height == grid@.len(),
                forall|k: int| 0 <= k < height ==> #[trigger] grid@[k]@.len() == width,
                y <= height,
                rows@.len() == y,
                forall|k: int| 0 <= k < y ==> #[trigger] rows@[k]@ == grid@[k]@,
            decreases height - y,
        {
            let src = &grid[y];
            let mut row: Vec<bool> = Vec::new();
            let mut x: usize = 0;
            while x < width
                invariant
                    x <= width,
                    src@.len() == width,
                    row@ == src@.take(x as int),
                decreases width - x,
            {
                row.push(src[x]);
                x += 1;
                assert(row@ =~= src@.take(x as int));
            }
            assert(row@ =~= src@);
            rows.push(row);
            y += 1;
        }
        let c = Canvas { width, height, rows };
        assert(c@.lit =~= PixelGrid::from_rows(cells).lit);
        c
    }
}

} // verus!
