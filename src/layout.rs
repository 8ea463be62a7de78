use vstd::prelude::*;

verus! {

/// The largest coordinate the grid's content may reach, so that content
/// coordinates, scrolling and pointer offsets all fit in an `i64`.
pub const MAX_COORD: u64 = 0x3fff_ffff_ffff_ffff;

/// Width left for tiles once the outer borders are taken off; the extra
/// `margin` pays for the trailing margin that the last column does not need.
/// A viewport narrower than the borders leaves nothing.
pub open spec fn remaining_width(vw: int, margin: int, border: int) -> int {
    if vw + margin >= 2 * border {
        vw + margin - 2 * border
    } else {
        0
    }
}

/// How many tiles fit in one row: at least one, whatever the viewport, and
/// exactly one when tiles have no width.
pub open spec fn tiles_per_row_for(vw: int, tw: int, margin: int, border: int) -> int {
    if tw == 0 {
        1
    } else {
        let q = remaining_width(vw, margin, border) / (tw + margin);
        if q == 0 {
            1
        } else {
            q
        }
    }
}

/// Half of the width that whole tile steps leave over, to center the rows;
/// nothing when a step has no width.
pub open spec fn center_offset_for(vw: int, tw: int, margin: int, border: int) -> int {
    if tw + margin == 0 {
        0
    } else {
        (remaining_width(vw, margin, border) % (tw + margin)) / 2
    }
}

/// The grid's content reaches no further than `MAX_COORD` with `n` rows.
pub open spec fn extent_fits(n: int, th: int, margin: int, border: int) -> bool {
    border + (n + 1) * (th + margin) <= MAX_COORD
}

/// A wider viewport never holds fewer tiles in a row.
pub proof fn lemma_tiles_per_row_monotonic(w1: int, w2: int, tw: int, margin: int, border: int)
    requires
        0 <= w1 < w2,
        tw >= 0,
        margin >= 0,
        border >= 0,
    ensures
        tiles_per_row_for(w1, tw, margin, border) <= tiles_per_row_for(w2, tw, margin, border),
{
    if tw > 0 {
        let r1 = remaining_width(w1, margin, border);
        let r2 = remaining_width(w2, margin, border);
        assert(r1 <= r2);
        assert(r1 / (tw + margin) <= r2 / (tw + margin)) by (nonlinear_arith)
            requires 0 <= r1 <= r2, tw + margin > 0;
    }
}

/// Whatever the viewport width, a row holds at least one tile.
pub proof fn lemma_tiles_per_row_at_least_one(vw: int, tw: int, margin: int, border: int)
    requires
        tw >= 0,
        margin >= 0,
    ensures
        tiles_per_row_for(vw, tw, margin, border) >= 1,
{
    if tw > 0 {
        let r = remaining_width(vw, margin, border);
        assert(r / (tw + margin) >= 0) by (nonlinear_arith)
            requires r >= 0, tw + margin > 0;
    }
}

/// Geometry of the grid at one viewport width. Positions are content
/// coordinates: `y` grows downwards from the top of the first row's border and
/// does not move with scrolling.
#[derive(Clone, Copy, Debug, PartialEq, Eq)]
pub struct Layout {
    pub viewport_width: u32,
    pub tile_width: u32,
    pub tile_height: u32,
    pub margin: u32,
    pub border: u32,
    pub tiles_per_row: u64,
    pub center_offset: u64,
}

impl Layout {
    /// The row packing and centering are those of the viewport width.
    pub open spec fn wf(self) -> bool {
        &&& self.tiles_per_row as int == tiles_per_row_for(
            self.viewport_width as int,
            self.tile_width as int,
            self.margin as int,
            self.border as int,
        )
        &&& self.center_offset as int == center_offset_for(
            self.viewport_width as int,
            self.tile_width as int,
            self.margin as int,
            self.border as int,
        )
    }

    pub open spec fn row_of(self, i: int) -> int {
        i / (self.tiles_per_row as int)
    }

    pub open spec fn column_of(self, i: int) -> int {
        i % (self.tiles_per_row as int)
    }

    /// Left edge of tile `i`.
    pub open spec fn x_of(self, i: int) -> int {
        self.center_offset + self.border + self.column_of(i) * (self.tile_width + self.margin)
    }

    /// Top edge of tile `i`.
    pub open spec fn y_of(self, i: int) -> int {
        self.border + self.row_of(i) * (self.tile_height + self.margin)
    }

    /// The point lies on tile `i`, edges included.
    pub open spec fn contains(self, i: int, px: int, py: int) -> bool {
        &&& self.x_of(i) <= px <= self.x_of(i) + self.tile_width
        &&& self.y_of(i) <= py <= self.y_of(i) + self.tile_height
    }

    /// The first of tiles `0..n` that holds the point, if any.
    pub open spec fn first_hit(self, n: int, px: int, py: int) -> Option<int>
        decreases n,
    {
        if n <= 0 {
            None
        } else {
            match self.first_hit(n - 1, px, py) {
                Some(j) => Some(j),
                None => if self.contains(n - 1, px, py) {
                    Some(n - 1)
                } else {
                    None
                },
            }
        }
    }

    /// Left edges stay within a few viewport widths; top edges are bounded by
    /// the grid's extent.
    pub proof fn lemma_position_bounds(self, i: int)
        requires
            self.wf(),
            0 <= i,
        ensures
            0 <= self.column_of(i) < self.tiles_per_row,
            0 <= self.row_of(i) <= i,
            0 <= self.column_of(i) * (self.tile_width + self.margin) <= remaining_width(
                self.viewport_width as int,
                self.margin as int,
                self.border as int,
            ),
            0 <= self.x_of(i),
            self.x_of(i) + self.tile_width <= 0x10_0000_0000,
            0 <= self.row_of(i) * (self.tile_height + self.margin) <= i * (self.tile_height
                + self.margin),
            self.border <= self.y_of(i),
            extent_fits(i, self.tile_height as int, self.margin as int, self.border as int)
                ==> self.y_of(i) + self.tile_height + self.margin <= MAX_COORD,
    {
        let t = self.tiles_per_row as int;
        let sx = self.tile_width + self.margin;
        let sy = self.tile_height + self.margin;
        let rem = remaining_width(self.viewport_width as int, self.margin as int, self.border as int);
        let col = self.column_of(i);
        let row = self.row_of(i);
        assert(0 <= col < t) by (nonlinear_arith)
            requires t >= 1, i >= 0, col == i % t;
        assert(0 <= row <= i) by (nonlinear_arith)
            requires t >= 1, i >= 0, row == i / t;
        if self.tile_width == 0 || rem / sx == 0 {
            assert(t == 1);
            assert(col == 0);
        } else {
            assert(t == rem / sx);
            assert(0 <= col * sx <= rem) by (nonlinear_arith)
                requires 0 <= col < t, t == rem / sx, sx > 0, rem >= 0;
        }
        assert(0 <= row * sy <= i * sy) by (nonlinear_arith)
            requires 0 <= row <= i, sy >= 0;
        assert((i + 1) * sy == i * sy + sy) by (nonlinear_arith);
    }

    /// Top-left corner of tile `i` in content coordinates.
    pub fn tile_position(&self, i: usize) -> (r: (u64, u64))
        requires
            self.wf(),
            extent_fits(i as int, self.tile_height as int, self.margin as int, self.border as int),
        ensures
            r.0 as int == self.x_of(i as int),
            r.1 as int == self.y_of(i as int),
    {
        proof {
            self.lemma_position_bounds(i as int);
        }
        let t = self.tiles_per_row;
        let col = (i as u64) % t;
        let row = (i as u64) / t;
        let x = self.center_offset + self.border as u64 + col * (self.tile_width as u64
            + self.margin as u64);
        let y = self.border as u64 + row * (self.tile_height as u64 + self.margin as u64);
        (x, y)
    }

    /// What `first_hit` returns: the least index of a tile holding the point.
    pub proof fn lemma_first_hit(self, n: int, px: int, py: int)
        requires
            n >= 0,
        ensures
            match self.first_hit(n, px, py) {
                Some(j) => {
                    &&& 0 <= j < n
                    &&& self.contains(j, px, py)
                    &&& forall|k: int| 0 <= k < j ==> !self.contains(k, px, py)
                },
                None => forall|k: int| 0 <= k < n ==> !self.contains(k, px, py),
            },
        decreases n,
    {
        if n > 0 {
            self.lemma_first_hit(n - 1, px, py);
        }
    }

    /// A tile that holds the point, with no earlier tile holding it, is the
    /// first hit among any tiles that include it.
    pub proof fn lemma_first_hit_is(self, n: int, i: int, px: int, py: int)
        requires
            0 <= i < n,
            self.contains(i, px, py),
            forall|k: int| 0 <= k < i ==> !self.contains(k, px, py),
        ensures
            self.first_hit(n, px, py) == Some(i),
        decreases n,
    {
        if n == i + 1 {
            self.lemma_first_hit(i, px, py);
        } else {
            self.lemma_first_hit_is(n - 1, i, px, py);
        }
    }

    /// The first of tiles `0..n` holding the content point `(px, py)`.
    pub fn hit_test(&self, n: usize, px: i64, py: i64) -> (r: Option<usize>)
        requires
            self.wf(),
            extent_fits(n as int, self.tile_height as int, self.margin as int, self.border as int),
        ensures
            match r {
                Some(i) => self.first_hit(n as int, px as int, py as int) == Some(i as int),
                None => self.first_hit(n as int, px as int, py as int) is None,
            },
    {
        let mut j: usize = 0;
        while j < n
            invariant
                self.wf(),
                extent_fits(n as int, self.tile_height as int, self.margin as int, self.border as int),
                0 <= j <= n,
                forall|k: int| 0 <= k < j ==> !self.contains(k, px as int, py as int),
            decreases n - j,
        {
            proof {
                self.lemma_position_bounds(j as int);
                assert((j + 1) * (self.tile_height + self.margin) <= (n + 1) * (self.tile_height
                    + self.margin)) by (nonlinear_arith)
                    requires j < n, self.tile_height + self.margin >= 0;
            }
            let (x, y) = self.tile_position(j);
            let x = x as i64;
            let y = y as i64;
            if x <= px && px <= x + self.tile_width as i64 && y <= py && py <= y
                + self.tile_height as i64 {
                proof {
                    self.lemma_first_hit_is(n as int, j as int, px as int, py as int);
                }
                return Some(j);
            }
            j = j + 1;
        }
        proof {
            self.lemma_first_hit(n as int, px as int, py as int);
        }
        None
    }

    /// The center of any laid-out tile hits that tile: tiles are apart by a
    /// margin, or are at least two pixels on each side so that the center
    /// lies clear of the neighbours' shared edges.
    pub proof fn lemma_hit_center(self, n: int, i: int)
        requires
            self.wf(),
            0 <= i < n,
            self.margin > 0 || (self.tile_width >= 2 && self.tile_height >= 2),
        ensures
            self.first_hit(n, self.x_of(i) + self.tile_width / 2, self.y_of(i) + self.tile_height / 2)
                == Some(i),
    {
        let cx = self.x_of(i) + self.tile_width / 2;
        let cy = self.y_of(i) + self.tile_height / 2;
        let t = self.tiles_per_row as int;
        let sx = self.tile_width + self.margin;
        let sy = self.tile_height + self.margin;
        assert forall|k: int| 0 <= k < i implies !self.contains(k, cx, cy) by {
            let rk = self.row_of(k);
            let ri = self.row_of(i);
            let ck = self.column_of(k);
            let ci = self.column_of(i);
            assert(k == t * rk + ck && i == t * ri + ci && 0 <= ck < t && 0 <= ci < t)
                by (nonlinear_arith)
                requires t >= 1, k >= 0, i >= 0, rk == k / t, ri == i / t, ck == k % t, ci == i % t;
            assert(rk <= ri) by (nonlinear_arith)
                requires t >= 1, 0 <= k < i, rk == k / t, ri == i / t;
            if rk < ri {
                assert(rk * sy <= ri * sy - sy) by (nonlinear_arith)
                    requires rk < ri, sy >= 0;
                assert(self.y_of(k) + self.tile_height < cy);
            } else {
                assert(ck < ci) by (nonlinear_arith)
                    requires k == t * rk + ck, i == t * ri + ci, rk == ri, k < i;
                assert(ck * sx <= ci * sx - sx) by (nonlinear_arith)
                    requires ck < ci, sx >= 0;
                assert(self.x_of(k) + self.tile_width < cx);
            }
        }
        self.lemma_first_hit_is(n, i, cx, cy);
    }

    /// Lays out tiles of the given size in a viewport `viewport_width` wide.
    pub fn new(viewport_width: u32, tile_width: u32, tile_height: u32, margin: u32, border: u32) -> (r:
        Layout)
        ensures
            r.wf(),
            r.viewport_width == viewport_width,
            r.tile_width == tile_width,
            r.tile_height == tile_height,
            r.margin == margin,
            r.border == border,
            r.tiles_per_row >= 1,
    {
        let vw = viewport_width as u64;
        let m = margin as u64;
        let b2 = 2 * (border as u64);
        let remaining: u64 = if vw + m >= b2 {
            vw + m - b2
        } else {
            0
        };
        let step = tile_width as u64 + m;
        let center_offset: u64 = if step == 0 {
            0
        } else {
            (remaining % step) / 2
        };
        let tiles_per_row: u64 = if tile_width == 0 {
            1
        } else {
            let q = remaining / step;
            if q == 0 {
                1
            } else {
                q
            }
        };
        Layout {
            viewport_width,
            tile_width,
            tile_height,
            margin,
            border,
            tiles_per_row,
            center_offset,
        }
    }
}

} // verus!
