//! Where the floating control bar goes while a region records: on screen,
//! `pad` pixels from every edge, and never over the captured hole, so the
//! bar is never filmed.

use vstd::prelude::*;

verus! {

/// Distance in pixels from the screen edge to the control bar.
pub const PAD: i32 = 10;

/// An axis-aligned rectangle in whole logical pixels: top-left corner
/// `(x, y)`, width `w`, height `h`.
#[derive(Clone, Copy, Debug, PartialEq, Eq, Structural)]
pub struct PixelRect {
    pub x: i32,
    pub y: i32,
    pub w: i32,
    pub h: i32,
}

/// A pair of machine integers as mathematical integers.
pub open spec fn wide(p: (i32, i32)) -> (int, int) {
    (p.0 as int, p.1 as int)
}

/// `v` is representable as an `i32`.
pub open spec fn fits_i32(v: int) -> bool {
    i32::MIN <= v <= i32::MAX
}

/// The largest coordinate on one axis at which a bar of `size` still ends
/// `pad` pixels before `extent`; pinned to `pad` when the bar cannot fit.
pub open spec fn axis_high(size: int, extent: int, pad: int) -> int {
    if extent - size - pad > pad {
        extent - size - pad
    } else {
        pad
    }
}

/// `want` clamped into `[pad, axis_high(size, extent, pad)]`.
pub open spec fn clamp_axis(want: int, size: int, extent: int, pad: int) -> int {
    if want < pad {
        pad
    } else if want > axis_high(size, extent, pad) {
        axis_high(size, extent, pad)
    } else {
        want
    }
}

/// The bar's top-left clamped on both axes.
pub open spec fn clamp_point(desired: (int, int), bar: (int, int), screen: (int, int), pad: int) -> (
    int,
    int,
) {
    (clamp_axis(desired.0, bar.0, screen.0, pad), clamp_axis(desired.1, bar.1, screen.1, pad))
}

/// Clamping cannot overflow: both high bounds, computed left to right,
/// stay within `i32`.
pub open spec fn clamp_defined(bar: (i32, i32), screen: (i32, i32), pad: i32) -> bool {
    &&& fits_i32(screen.0 - bar.0)
    &&& fits_i32(screen.0 - bar.0 - pad)
    &&& fits_i32(screen.1 - bar.1)
    &&& fits_i32(screen.1 - bar.1 - pad)
}

/// The bar at `pos` (size `bar`) and the hole intersect with positive area.
pub open spec fn overlaps_spec(pos: (int, int), bar: (int, int), hole: PixelRect) -> bool {
    &&& pos.0 < hole.x + hole.w
    &&& pos.0 + bar.0 > hole.x
    &&& pos.1 < hole.y + hole.h
    &&& pos.1 + bar.1 > hole.y
}

/// The overlap test never overflows: each sum it evaluates, in order and
/// with `&&` short-circuiting, fits in `i32`.
pub open spec fn overlap_defined(pos: (int, int), bar: (int, int), hole: PixelRect) -> bool {
    &&& fits_i32(hole.x + hole.w)
    &&& pos.0 < hole.x + hole.w ==> fits_i32(pos.0 + bar.0)
    &&& (pos.0 < hole.x + hole.w && pos.0 + bar.0 > hole.x) ==> fits_i32(hole.y + hole.h)
    &&& (pos.0 < hole.x + hole.w && pos.0 + bar.0 > hole.x && pos.1 < hole.y + hole.h) ==> fits_i32(
        pos.1 + bar.1,
    )
}

/// The four candidate corners, in order of preference: below, above, right
/// of and left of the hole, keeping the free axis at `desired`.
pub open spec fn candidates(desired: (int, int), bar: (int, int), hole: PixelRect, pad: int) -> Seq<
    (int, int),
> {
    seq![
        (desired.0, hole.y + hole.h + pad),
        (desired.0, hole.y - bar.1 - pad),
        (hole.x + hole.w + pad, desired.1),
        (hole.x - bar.0 - pad, desired.1),
    ]
}

/// Candidate `k`, clamped on screen.
pub open spec fn clamped_candidate(
    k: int,
    desired: (int, int),
    bar: (int, int),
    screen: (int, int),
    hole: PixelRect,
    pad: int,
) -> (int, int) {
    clamp_point(candidates(desired, bar, hole, pad)[k], bar, screen, pad)
}

/// The first clamped candidate from index `k` on that stays clear of the
/// hole, if any.
pub open spec fn first_clear_from(
    k: nat,
    desired: (int, int),
    bar: (int, int),
    screen: (int, int),
    hole: PixelRect,
    pad: int,
) -> Option<(int, int)>
    decreases 4 - k,
{
    if k >= 4 {
        None
    } else if !overlaps_spec(clamped_candidate(k as int, desired, bar, screen, hole, pad), bar, hole) {
        Some(clamped_candidate(k as int, desired, bar, screen, hole, pad))
    } else {
        first_clear_from(k + 1, desired, bar, screen, hole, pad)
    }
}

/// Where the bar goes: the first clamped candidate clear of the hole, or
/// `None` when all four overlap it.
pub open spec fn placement(
    desired: (int, int),
    bar: (int, int),
    screen: (int, int),
    hole: PixelRect,
    pad: int,
) -> Option<(int, int)> {
    first_clear_from(0, desired, bar, screen, hole, pad)
}

/// Every sum the placement evaluates fits in `i32`: the four candidate
/// corners, the clamp bounds, and the overlap tests of the candidates that
/// are tried (each is tried only when all earlier ones overlap).
pub open spec fn placement_defined(
    desired: (i32, i32),
    bar: (i32, i32),
    screen: (i32, i32),
    hole: PixelRect,
    pad: i32,
) -> bool {
    &&& fits_i32(hole.y + hole.h)
    &&& fits_i32(hole.y + hole.h + pad)
    &&& fits_i32(hole.y - bar.1)
    &&& fits_i32(hole.y - bar.1 - pad)
    &&& fits_i32(hole.x + hole.w)
    &&& fits_i32(hole.x + hole.w + pad)
    &&& fits_i32(hole.x - bar.0)
    &&& fits_i32(hole.x - bar.0 - pad)
    &&& clamp_defined(bar, screen, pad)
    &&& forall|k: int|
        0 <= k < 4 && (forall|j: int|
            0 <= j < k ==> overlaps_spec(
                #[trigger] clamped_candidate(j, wide(desired), wide(bar), wide(screen), hole, pad as int),
                wide(bar),
                hole,
            )) ==> overlap_defined(
            #[trigger] clamped_candidate(k, wide(desired), wide(bar), wide(screen), hole, pad as int),
            wide(bar),
            hole,
        )
}

fn clamp_axis_exec(want: i32, size: i32, extent: i32, pad: i32) -> (r: i32)
    requires
        fits_i32(extent - size),
        fits_i32(extent - size - pad),
    ensures
        r == clamp_axis(want as int, size as int, extent as int, pad as int),
{
    let room = extent - size - pad;
    let hi = if room > pad {
        room
    } else {
        pad
    };
    if want < pad {
        pad
    } else if want > hi {
        hi
    } else {
        want
    }
}

/// Clamps the bar's desired top-left so the whole bar stays on screen with
/// `pad` pixels on every edge; on an axis where the bar cannot fit it is
/// pinned to `pad`.
pub fn clamp_to_screen(desired: (i32, i32), bar: (i32, i32), screen: (i32, i32), pad: i32) -> (r: (
    i32,
    i32,
))
    requires
        clamp_defined(bar, screen, pad),
    ensures
        wide(r) == clamp_point(wide(desired), wide(bar), wide(screen), pad as int),
        pad <= r.0 <= axis_high(bar.0 as int, screen.0 as int, pad as int),
        pad <= r.1 <= axis_high(bar.1 as int, screen.1 as int, pad as int),
        r.0 >= pad,
        screen.0 - bar.0 - pad >= pad ==> r.0 <= screen.0 - bar.0 - pad,
        screen.0 - bar.0 - pad < pad ==> r.0 == pad,
        desired.0 < pad ==> r.0 == pad,
        pad <= desired.0 && desired.0 + bar.0 + pad <= screen.0 ==> r.0 == desired.0,
        desired.0 + bar.0 + pad > screen.0 && screen.0 - bar.0 - pad >= pad ==> r.0 == screen.0 - bar.0 - pad,
        r.1 >= pad,
        screen.1 - bar.1 - pad >= pad ==> r.1 <= screen.1 - bar.1 - pad,
        screen.1 - bar.1 - pad < pad ==> r.1 == pad,
        desired.1 < pad ==> r.1 == pad,
        pad <= desired.1 && desired.1 + bar.1 + pad <= screen.1 ==> r.1 == desired.1,
        desired.1 + bar.1 + pad > screen.1 && screen.1 - bar.1 - pad >= pad ==> r.1 == screen.1 - bar.1 - pad,
{
    (
        clamp_axis_exec(desired.0, bar.0, screen.0, pad),
        clamp_axis_exec(desired.1, bar.1, screen.1, pad),
    )
}

/// Whether the bar at `pos` (size `bar`) overlaps the capture `hole`.
pub fn overlaps(pos: (i32, i32), bar: (i32, i32), hole: PixelRect) -> (r: bool)
    requires
        overlap_defined(wide(pos), wide(bar), hole),
    ensures
        r == overlaps_spec(wide(pos), wide(bar), hole),
        !r ==> forall|px: int, py: int|
            !(#[trigger] covers(pos.0 as int, pos.1 as int, bar.0 as int, bar.1 as int, px, py) && #[trigger] covers(hole.x as int, hole.y as int, hole.w as int, hole.h as int, px, py)),
        r && bar.0 > 0 && bar.1 > 0 && hole.w > 0 && hole.h > 0 ==> exists|px: int, py: int|
            #[trigger] covers(pos.0 as int, pos.1 as int, bar.0 as int, bar.1 as int, px, py) && #[trigger] covers(hole.x as int, hole.y as int, hole.w as int, hole.h as int, px, py),
{
    proof { lemma_overlap_is_a_shared_pixel(wide(pos), wide(bar), hole); }
    let (x, y) = pos;
    let (bw, bh) = bar;
    x < hole.x + hole.w && x + bw > hole.x && y < hole.y + hole.h && y + bh > hole.y
}

/// Pixel `(px, py)` lies in the rectangle with top-left `(x, y)`, width `w`
/// and height `h`: `x <= px < x + w` and `y <= py < y + h`.
pub open spec fn covers(x: int, y: int, w: int, h: int, px: int, py: int) -> bool {
    x <= px < x + w && y <= py < y + h
}

/// Two rectangles overlap exactly when they share a pixel: a bar that does
/// not overlap the hole has no pixel inside it, and, for rectangles of
/// positive size, an overlapping bar has a pixel inside it.
pub proof fn lemma_overlap_is_a_shared_pixel(pos: (int, int), bar: (int, int), hole: PixelRect)
    ensures
        !overlaps_spec(pos, bar, hole) ==> forall|px: int, py: int|
            !(#[trigger] covers(pos.0 as int, pos.1 as int, bar.0 as int, bar.1 as int, px, py) && #[trigger] covers(hole.x as int, hole.y as int, hole.w as int, hole.h as int, px, py)),
        overlaps_spec(pos, bar, hole) && bar.0 > 0 && bar.1 > 0 && hole.w > 0 && hole.h > 0
            ==> exists|px: int, py: int|
            #[trigger] covers(pos.0 as int, pos.1 as int, bar.0 as int, bar.1 as int, px, py) && #[trigger] covers(hole.x as int, hole.y as int, hole.w as int, hole.h as int, px, py),
{
    if overlaps_spec(pos, bar, hole) && bar.0 > 0 && bar.1 > 0 && hole.w > 0 && hole.h > 0 {
        let px = if pos.0 > hole.x { pos.0 } else { hole.x as int };
        let py = if pos.1 > hole.y { pos.1 } else { hole.y as int };
        assert(covers(pos.0 as int, pos.1 as int, bar.0 as int, bar.1 as int, px, py) && covers(hole.x as int, hole.y as int, hole.w as int, hole.h as int, px, py));
    }
}

/// A spot the placement returns never puts a pixel of the bar inside the
/// hole, so the bar is never filmed.
pub proof fn lemma_placed_bar_is_off_the_hole(
    desired: (int, int),
    bar: (int, int),
    screen: (int, int),
    hole: PixelRect,
    pad: int,
)
    ensures
        placement(desired, bar, screen, hole, pad) matches Some(p) ==> forall|px: int, py: int|
            !(#[trigger] covers(p.0 as int, p.1 as int, bar.0 as int, bar.1 as int, px, py) && #[trigger] covers(hole.x as int, hole.y as int, hole.w as int, hole.h as int, px, py)),
{
    lemma_first_clear_is_clear(0, desired, bar, screen, hole, pad);
    if let Some(p) = placement(desired, bar, screen, hole, pad) {
        lemma_overlap_is_a_shared_pixel(p, bar, hole);
    }
}

proof fn lemma_first_clear_is_clear(
    k: nat,
    desired: (int, int),
    bar: (int, int),
    screen: (int, int),
    hole: PixelRect,
    pad: int,
)
    ensures
        first_clear_from(k, desired, bar, screen, hole, pad) matches Some(p) ==> !overlaps_spec(
            p,
            bar,
            hole,
        ),
    decreases 4 - k,
{
    if k < 4 {
        lemma_first_clear_is_clear(k + 1, desired, bar, screen, hole, pad);
    }
}

/// An optional pair of machine integers as mathematical integers.
pub open spec fn wide_opt(p: Option<(i32, i32)>) -> Option<(int, int)> {
    match p {
        Some(q) => Some(wide(q)),
        None => None,
    }
}

/// The placement tries the spot below the hole, then above, then right,
/// then left (each clamped on screen), and takes the first one the bar does
/// not overlap; when all four overlap there is none.
pub proof fn lemma_placement_order(d: (int, int), b: (int, int), sc: (int, int), hole: PixelRect, p: int)
    ensures
        ({
            let below = clamp_point((d.0, hole.y + hole.h + p), b, sc, p);
            let above = clamp_point((d.0, hole.y - b.1 - p), b, sc, p);
            let right = clamp_point((hole.x + hole.w + p, d.1), b, sc, p);
            let left = clamp_point((hole.x - b.0 - p, d.1), b, sc, p);
            let r = placement(d, b, sc, hole, p);
            &&& !overlaps_spec(below, b, hole) ==> r == Some(below)
            &&& overlaps_spec(below, b, hole) && !overlaps_spec(above, b, hole) ==> r == Some(above)
            &&& overlaps_spec(below, b, hole) && overlaps_spec(above, b, hole) && !overlaps_spec(
                right,
                b,
                hole,
            ) ==> r == Some(right)
            &&& overlaps_spec(below, b, hole) && overlaps_spec(above, b, hole) && overlaps_spec(
                right,
                b,
                hole,
            ) && !overlaps_spec(left, b, hole) ==> r == Some(left)
            &&& overlaps_spec(below, b, hole) && overlaps_spec(above, b, hole) && overlaps_spec(
                right,
                b,
                hole,
            ) && overlaps_spec(left, b, hole) ==> r is None
        }),
{
    let c = candidates(d, b, hole, p);
    assert(c[0] == (d.0, hole.y + hole.h + p));
    assert(c[1] == (d.0, hole.y - b.1 - p));
    assert(c[2] == (hole.x + hole.w + p, d.1));
    assert(c[3] == (hole.x - b.0 - p, d.1));
    assert(first_clear_from(4, d, b, sc, hole, p) is None);
    assert(first_clear_from(3, d, b, sc, hole, p) == (if !overlaps_spec(clamped_candidate(3, d, b, sc, hole, p), b, hole) {
        Some(clamped_candidate(3, d, b, sc, hole, p))
    } else {
        None
    }));
    assert(first_clear_from(2, d, b, sc, hole, p) == (if !overlaps_spec(clamped_candidate(2, d, b, sc, hole, p), b, hole) {
        Some(clamped_candidate(2, d, b, sc, hole, p))
    } else {
        first_clear_from(3, d, b, sc, hole, p)
    }));
    assert(first_clear_from(1, d, b, sc, hole, p) == (if !overlaps_spec(clamped_candidate(1, d, b, sc, hole, p), b, hole) {
        Some(clamped_candidate(1, d, b, sc, hole, p))
    } else {
        first_clear_from(2, d, b, sc, hole, p)
    }));
}

/// Places the bar on screen (`pad` from every edge) and clear of the
/// capture `hole`, so it is never filmed. Tries the dim bands below, above,
/// right of and left of the hole, in that order, keeping the free axis at
/// `desired`; `None` when every band's clamped spot overlaps the hole (a
/// full-screen selection), and the caller hides the bar.
pub fn place_off_hole(
    desired: (i32, i32),
    bar: (i32, i32),
    screen: (i32, i32),
    hole: PixelRect,
    pad: i32,
) -> (r: Option<(i32, i32)>)
    requires
        placement_defined(desired, bar, screen, hole, pad),
    ensures
        wide_opt(r) == placement(wide(desired), wide(bar), wide(screen), hole, pad as int),
        r matches Some(p) ==> {
            &&& !overlaps_spec(wide(p), wide(bar), hole)
            &&& forall|px: int, py: int|
                !(#[trigger] covers(p.0 as int, p.1 as int, bar.0 as int, bar.1 as int, px, py) && #[trigger] covers(hole.x as int, hole.y as int, hole.w as int, hole.h as int, px, py))
            &&& pad <= p.0 <= axis_high(bar.0 as int, screen.0 as int, pad as int)
            &&& pad <= p.1 <= axis_high(bar.1 as int, screen.1 as int, pad as int)
        },
        ({
            let (d, b, sc, p) = (wide(desired), wide(bar), wide(screen), pad as int);
            let below = clamp_point((d.0, hole.y + hole.h + p), b, sc, p);
            let above = clamp_point((d.0, hole.y - b.1 - p), b, sc, p);
            let right = clamp_point((hole.x + hole.w + p, d.1), b, sc, p);
            let left = clamp_point((hole.x - b.0 - p, d.1), b, sc, p);
            &&& !overlaps_spec(below, b, hole) ==> wide_opt(r) == Some(below)
            &&& overlaps_spec(below, b, hole) && !overlaps_spec(above, b, hole) ==> wide_opt(r)
                == Some(above)
            &&& overlaps_spec(below, b, hole) && overlaps_spec(above, b, hole) && !overlaps_spec(
                right,
                b,
                hole,
            ) ==> wide_opt(r) == Some(right)
            &&& overlaps_spec(below, b, hole) && overlaps_spec(above, b, hole) && overlaps_spec(
                right,
                b,
                hole,
            ) && !overlaps_spec(left, b, hole) ==> wide_opt(r) == Some(left)
            &&& overlaps_spec(below, b, hole) && overlaps_spec(above, b, hole) && overlaps_spec(
                right,
                b,
                hole,
            ) && overlaps_spec(left, b, hole) ==> r is None
        }),
        r is None ==> forall|k: int|
            0 <= k < 4 ==> overlaps_spec(
                #[trigger] clamped_candidate(k, wide(desired), wide(bar), wide(screen), hole, pad as int),
                wide(bar),
                hole,
            ),
{
    let ghost d = wide(desired);
    let ghost b = wide(bar);
    let ghost sc = wide(screen);
    proof { lemma_placement_order(d, b, sc, hole, pad as int); }
    let (bw, bh) = bar;
    let cands: [(i32, i32); 4] = [
        (desired.0, hole.y + hole.h + pad),
        (desired.0, hole.y - bh - pad),
        (hole.x + hole.w + pad, desired.1),
        (hole.x - bw - pad, desired.1),
    ];
    assert(forall|j: int| 0 <= j < 4 ==> wide(#[trigger] cands@[j]) == candidates(d, b, hole, pad as int)[j]);
    let mut k: usize = 0;
    while k < 4
        invariant
            0 <= k <= 4,
            placement_defined(desired, bar, screen, hole, pad),
            d == wide(desired),
            b == wide(bar),
            sc == wide(screen),
            forall|j: int| 0 <= j < 4 ==> wide(#[trigger] cands@[j]) == candidates(d, b, hole, pad as int)[j],
            forall|j: int|
                0 <= j < k ==> overlaps_spec(
                    #[trigger] clamped_candidate(j, d, b, sc, hole, pad as int),
                    b,
                    hole,
                ),
            first_clear_from(k as nat, d, b, sc, hole, pad as int) == placement(d, b, sc, hole, pad as int),
        decreases 4 - k,
    {
        let p = clamp_to_screen(cands[k], bar, screen, pad);
        assert(wide(p) == clamped_candidate(k as int, d, b, sc, hole, pad as int));
        if !overlaps(p, bar, hole) {
            proof {
                lemma_overlap_is_a_shared_pixel(wide(p), wide(bar), hole);
                lemma_placement_order(d, b, sc, hole, pad as int);
            }
            return Some(p);
        }
        k = k + 1;
    }
    None
}

/// The bar's rectangle once placed: at the found spot with its size, or,
/// when there is no room and the bar is hidden, an empty rectangle at the
/// origin.
pub fn placed_bar(spot: Option<(i32, i32)>, bar: (i32, i32)) -> (r: PixelRect)
    ensures
        spot matches Some(p) ==> r == (PixelRect { x: p.0, y: p.1, w: bar.0, h: bar.1 }),
        spot is None ==> r == (PixelRect { x: 0, y: 0, w: 0, h: 0 }),
{
    match spot {
        Some((x, y)) => PixelRect { x, y, w: bar.0, h: bar.1 },
        None => PixelRect { x: 0, y: 0, w: 0, h: 0 },
    }
}

/// Clamping on one axis: the bar never starts before `pad`; when it fits
/// between the paddings it never ends past `extent - pad`, and when it does
/// not fit it is pinned at `pad`; a corner already inside stays put, one
/// before the padding moves to `pad`, and one too far moves back just
/// enough to end `pad` before the edge.
pub proof fn lemma_clamp_axis_rules(want: int, size: int, extent: int, pad: int)
    ensures
        clamp_axis(want, size, extent, pad) >= pad,
        extent - size - pad >= pad ==> clamp_axis(want, size, extent, pad) <= extent - size - pad,
        extent - size - pad < pad ==> clamp_axis(want, size, extent, pad) == pad,
        want < pad ==> clamp_axis(want, size, extent, pad) == pad,
        pad <= want && want + size + pad <= extent ==> clamp_axis(want, size, extent, pad) == want,
        want + size + pad > extent && extent - size - pad >= pad ==> clamp_axis(
            want,
            size,
            extent,
            pad,
        ) == extent - size - pad,
{
}

/// A bar whose desired corner already lies inside the padded screen is left
/// where it is.
pub proof fn lemma_clamp_keeps_inside(desired: (int, int), bar: (int, int), screen: (int, int), pad: int)
    requires
        pad <= desired.0 <= axis_high(bar.0, screen.0, pad),
        pad <= desired.1 <= axis_high(bar.1, screen.1, pad),
    ensures
        clamp_point(desired, bar, screen, pad) == desired,
{
}

/// Clamping twice is clamping once.
pub proof fn lemma_clamp_idempotent(desired: (int, int), bar: (int, int), screen: (int, int), pad: int)
    ensures
        clamp_point(clamp_point(desired, bar, screen, pad), bar, screen, pad) == clamp_point(
            desired,
            bar,
            screen,
            pad,
        ),
{
}

/// A hole that covers the whole padded screen leaves the bar no room: when
/// the bar (of positive size) fits between the paddings, every spot it can
/// be clamped to overlaps the hole, so the placement is `None`.
pub proof fn lemma_full_screen_hole_leaves_no_room(
    desired: (int, int),
    bar: (int, int),
    screen: (int, int),
    hole: PixelRect,
    pad: int,
)
    requires
        bar.0 > 0,
        bar.1 > 0,
        screen.0 - bar.0 - pad >= pad,
        screen.1 - bar.1 - pad >= pad,
        hole.x <= pad,
        hole.y <= pad,
        hole.x + hole.w >= screen.0 - pad,
        hole.y + hole.h >= screen.1 - pad,
    ensures
        placement(desired, bar, screen, hole, pad) is None,
{
    assert forall|k: int| 0 <= k < 4 implies overlaps_spec(
        #[trigger] clamped_candidate(k, desired, bar, screen, hole, pad),
        bar,
        hole,
    ) by {
        let p = clamped_candidate(k, desired, bar, screen, hole, pad);
        assert(pad <= p.0 <= screen.0 - bar.0 - pad);
        assert(pad <= p.1 <= screen.1 - bar.1 - pad);
    }
    assert(overlaps_spec(clamped_candidate(0, desired, bar, screen, hole, pad), bar, hole));
    assert(overlaps_spec(clamped_candidate(1, desired, bar, screen, hole, pad), bar, hole));
    assert(overlaps_spec(clamped_candidate(2, desired, bar, screen, hole, pad), bar, hole));
    assert(overlaps_spec(clamped_candidate(3, desired, bar, screen, hole, pad), bar, hole));
    assert(first_clear_from(4, desired, bar, screen, hole, pad) is None);
    assert(first_clear_from(3, desired, bar, screen, hole, pad) is None);
    assert(first_clear_from(2, desired, bar, screen, hole, pad) is None);
    assert(first_clear_from(1, desired, bar, screen, hole, pad) is None);
}

} // verus!
