use vstd::prelude::*;

verus! {

/// Width and height of an image of intrinsic size `(w, h)` scaled by
/// `min(hw / w, hh / h)` to fit a `hw` x `hh` box, rounded down.
/// A zero side gives an infinite ratio on that axis, so the other axis decides;
/// an image with no area fits as `(0, 0)`.
pub open spec fn fit_size(w: int, h: int, hw: int, hh: int) -> (int, int) {
    if w == 0 && h == 0 {
        (0, 0)
    } else if w == 0 {
        (0, hh)
    } else if h == 0 {
        (hw, 0)
    } else if hw * h <= hh * w {
        (hw, (h * hw) / w)
    } else {
        ((w * hh) / h, hh)
    }
}

proof fn lemma_fit_within(w: int, h: int, hw: int, hh: int)
    requires
        w >= 0,
        h >= 0,
        hw >= 0,
        hh >= 0,
    ensures
        0 <= fit_size(w, h, hw, hh).0 <= hw,
        0 <= fit_size(w, h, hw, hh).1 <= hh,
{
    if w > 0 && h > 0 {
        if hw * h <= hh * w {
            assert(h * hw == hw * h) by (nonlinear_arith);
            assert(0 <= (h * hw) / w <= hh) by (nonlinear_arith)
                requires
                    hw * h <= hh * w,
                    h * hw == hw * h,
                    w > 0,
                    h >= 0,
                    hw >= 0,
            {
                assert(h * hw <= hh * w);
                assert((hh * w) / w == hh);
            }
        } else {
            assert(0 <= (w * hh) / h <= hw) by (nonlinear_arith)
                requires
                    hw * h > hh * w,
                    h > 0,
                    w >= 0,
                    hh >= 0,
            {
                assert(w * hh <= hw * h);
                assert((hw * h) / h == hw);
            }
        }
    }
}

/// Scales an image of intrinsic size `w` x `h` to fit a `hw` x `hh` box,
/// keeping its aspect ratio; the image may be scaled up as well as down.
pub fn fit(w: u32, h: u32, hw: u32, hh: u32) -> (r: (u32, u32))
    ensures
        r.0 as int == fit_size(w as int, h as int, hw as int, hh as int).0,
        r.1 as int == fit_size(w as int, h as int, hw as int, hh as int).1,
        r.0 <= hw,
        r.1 <= hh,
{
    proof {
        lemma_fit_within(w as int, h as int, hw as int, hh as int);
    }
    if w == 0 && h == 0 {
        (0, 0)
    } else if w == 0 {
        (0, hh)
    } else if h == 0 {
        (hw, 0)
    } else {
        let (w64, h64, hw64, hh64) = (w as u64, h as u64, hw as u64, hh as u64);
        assert(hw64 * h64 <= u32::MAX * u32::MAX) by (nonlinear_arith)
            requires hw64 <= u32::MAX, h64 <= u32::MAX;
        assert(hh64 * w64 <= u32::MAX * u32::MAX) by (nonlinear_arith)
            requires hh64 <= u32::MAX, w64 <= u32::MAX;
        assert(h64 * hw64 == hw64 * h64) by (nonlinear_arith);
        assert(w64 * hh64 == hh64 * w64) by (nonlinear_arith);
        if hw64 * h64 <= hh64 * w64 {
            (hw, ((h64 * hw64) / w64) as u32)
        } else {
            (((w64 * hh64) / h64) as u32, hh)
        }
    }
}

/// The widest fitted width over all images: `0` for no images.
pub open spec fn max_fit_width(sizes: Seq<(u32, u32)>, hw: int, hh: int) -> int
    decreases sizes.len(),
{
    if sizes.len() == 0 {
        0
    } else {
        let rest = max_fit_width(sizes.drop_last(), hw, hh);
        let f = fit_size(sizes.last().0 as int, sizes.last().1 as int, hw, hh).0;
        if f > rest {
            f
        } else {
            rest
        }
    }
}

/// The tallest fitted height over all images: `0` for no images.
pub open spec fn max_fit_height(sizes: Seq<(u32, u32)>, hw: int, hh: int) -> int
    decreases sizes.len(),
{
    if sizes.len() == 0 {
        0
    } else {
        let rest = max_fit_height(sizes.drop_last(), hw, hh);
        let f = fit_size(sizes.last().0 as int, sizes.last().1 as int, hw, hh).1;
        if f > rest {
            f
        } else {
            rest
        }
    }
}

pub open spec fn min_int(a: int, b: int) -> int {
    if a <= b {
        a
    } else {
        b
    }
}

/// The shared tile size: per axis, the largest fitted size over all images,
/// never more than the hint on that axis.
pub open spec fn tile_size(sizes: Seq<(u32, u32)>, hw: int, hh: int) -> (int, int) {
    (min_int(max_fit_width(sizes, hw, hh), hw), min_int(max_fit_height(sizes, hw, hh), hh))
}

/// Every image fits inside the maxima, and the maxima stay within the hint.
pub proof fn lemma_max_fit_bounds(sizes: Seq<(u32, u32)>, hw: int, hh: int)
    requires
        hw >= 0,
        hh >= 0,
    ensures
        0 <= max_fit_width(sizes, hw, hh) <= hw,
        0 <= max_fit_height(sizes, hw, hh) <= hh,
        forall|i: int|
            0 <= i < sizes.len() ==> fit_size(sizes[i].0 as int, sizes[i].1 as int, hw, hh).0
                <= max_fit_width(sizes, hw, hh),
        forall|i: int|
            0 <= i < sizes.len() ==> fit_size(sizes[i].0 as int, sizes[i].1 as int, hw, hh).1
                <= max_fit_height(sizes, hw, hh),
    decreases sizes.len(),
{
    if sizes.len() > 0 {
        let rest = sizes.drop_last();
        lemma_max_fit_bounds(rest, hw, hh);
        lemma_fit_within(sizes.last().0 as int, sizes.last().1 as int, hw, hh);
        assert forall|i: int| 0 <= i < sizes.len() - 1 implies sizes[i] == rest[i] by {}
    }
}

/// Computes the shared tile size for images of the given intrinsic sizes and a
/// maximum size hint; no images give `(0, 0)`.
pub fn compute_tile_size(sizes: &Vec<(u32, u32)>, hint_width: u32, hint_height: u32) -> (r: (
    u32,
    u32,
))
    ensures
        (r.0 as int, r.1 as int) == tile_size(sizes@, hint_width as int, hint_height as int),
        r.0 <= hint_width,
        r.1 <= hint_height,
        sizes@.len() == 0 ==> r == (0u32, 0u32),
{
    let ghost hw = hint_width as int;
    let ghost hh = hint_height as int;
    let mut max_w: u32 = 0;
    let mut max_h: u32 = 0;
    let mut i: usize = 0;
    while i < sizes.len()
        invariant
            0 <= i <= sizes@.len(),
            hw == hint_width as int,
            hh == hint_height as int,
            max_w as int == max_fit_width(sizes@.subrange(0, i as int), hw, hh),
            max_h as int == max_fit_height(sizes@.subrange(0, i as int), hw, hh),
        decreases sizes@.len() - i,
    {
        let s = sizes[i];
        let fitted = fit(s.0, s.1, hint_width, hint_height);
        let w = fitted.0;
        let h = fitted.1;
        proof {
            let next = sizes@.subrange(0, i + 1);
            assert(next.drop_last() =~= sizes@.subrange(0, i as int));
            assert(next.last() == sizes@[i as int]);
        }
        if w > max_w {
            max_w = w;
        }
        if h > max_h {
            max_h = h;
        }
        i = i + 1;
    }
    proof {
        assert(sizes@.subrange(0, i as int) =~= sizes@);
    }
    let tw = if max_w < hint_width {
        max_w
    } else {
        hint_width
    };
    let th = if max_h < hint_height {
        max_h
    } else {
        hint_height
    };
    (tw, th)
}

} // verus!
