//! Logical screen rectangles and the arithmetic that places presented windows.

use vstd::prelude::*;

verus! {

/// The smallest and largest `i32`, as mathematical integers.
pub open spec fn i32_min() -> int {
    -2147483648
}

pub open spec fn i32_max() -> int {
    2147483647
}

/// `v` clamped into the `i32` range: what a saturating operation yields.
pub open spec fn saturate_i32(v: int) -> int {
    if v < i32_min() {
        i32_min()
    } else if v > i32_max() {
        i32_max()
    } else {
        v
    }
}

/// Division by two that rounds toward zero, as Rust's integer `/` does.
pub open spec fn half_toward_zero(v: int) -> int {
    if v >= 0 {
        v / 2
    } else {
        -((-v) / 2)
    }
}

/// `a + b`, saturating at the bounds of `i32`.
pub fn saturating_add_i32(a: i32, b: i32) -> (r: i32)
    ensures
        r == saturate_i32(a + b),
{
    let wide: i64 = a as i64 + b as i64;
    if wide > i32::MAX as i64 {
        i32::MAX
    } else if wide < i32::MIN as i64 {
        i32::MIN
    } else {
        wide as i32
    }
}

/// `a - b`, saturating at the bounds of `i32`.
pub fn saturating_sub_i32(a: i32, b: i32) -> (r: i32)
    ensures
        r == saturate_i32(a - b),
{
    let wide: i64 = a as i64 - b as i64;
    if wide > i32::MAX as i64 {
        i32::MAX
    } else if wide < i32::MIN as i64 {
        i32::MIN
    } else {
        wide as i32
    }
}

/// `a * 2`, saturating at the bounds of `i32`.
pub fn saturating_double_i32(a: i32) -> (r: i32)
    ensures
        r == saturate_i32(a * 2),
{
    let wide: i64 = a as i64 * 2;
    if wide > i32::MAX as i64 {
        i32::MAX
    } else if wide < i32::MIN as i64 {
        i32::MIN
    } else {
        wide as i32
    }
}

/// `v / 2` rounded toward zero.
pub fn halve_i32(v: i32) -> (r: i32)
    ensures
        r == half_toward_zero(v as int),
{
    if v >= 0 {
        v / 2
    } else {
        let magnitude: i64 = -(v as i64);
        let half: i64 = magnitude / 2;
        (-half) as i32
    }
}

/// A rectangle in logical output pixels.
#[derive(Clone, Copy, Debug, PartialEq, Eq)]
pub struct ScreenRect {
    pub x: i32,
    pub y: i32,
    pub width: i32,
    pub height: i32,
}

/// How far the gap insets one axis of a rectangle whose extent is `extent`.
pub open spec fn gap_inset(requested: int, extent: int) -> int {
    let limit = half_toward_zero(saturate_i32(extent - 1));
    if requested <= limit {
        requested
    } else {
        limit
    }
}

/// The gap as an `i32`: values beyond `i32::MAX` saturate.
pub open spec fn requested_gap(gap: u32) -> int {
    if gap > i32_max() {
        i32_max()
    } else {
        gap as int
    }
}

/// The presented rectangle once the outer gap is taken off each side.
pub open spec fn inset_rect(rect: ScreenRect, gap: u32) -> ScreenRect {
    let requested = requested_gap(gap);
    let horizontal = gap_inset(requested, rect.width as int);
    let vertical = gap_inset(requested, rect.height as int);
    ScreenRect {
        x: saturate_i32(rect.x + horizontal) as i32,
        y: saturate_i32(rect.y + vertical) as i32,
        width: saturate_i32(rect.width - saturate_i32(horizontal * 2)) as i32,
        height: saturate_i32(rect.height - saturate_i32(vertical * 2)) as i32,
    }
}

/// Insets a presented window without changing its world geometry.
///
/// The inset is clamped independently on each axis so even a very small
/// presentation remains at least one logical pixel wide and high.
pub fn inset_screen_rect(rect: ScreenRect, gap: u32) -> (result: ScreenRect)
    ensures
        result == inset_rect(rect, gap),
{
    let requested: i32 = if gap > i32::MAX as u32 {
        i32::MAX
    } else {
        gap as i32
    };
    let width_limit = halve_i32(saturating_sub_i32(rect.width, 1));
    let horizontal = if requested <= width_limit {
        requested
    } else {
        width_limit
    };
    let height_limit = halve_i32(saturating_sub_i32(rect.height, 1));
    let vertical = if requested <= height_limit {
        requested
    } else {
        height_limit
    };
    ScreenRect {
        x: saturating_add_i32(rect.x, horizontal),
        y: saturating_add_i32(rect.y, vertical),
        width: saturating_sub_i32(rect.width, saturating_double_i32(horizontal)),
        height: saturating_sub_i32(rect.height, saturating_double_i32(vertical)),
    }
}

/// An inset never moves the centre of a rectangle and never empties it: a
/// rectangle at least one pixel wide and high that lies within the `i32`
/// coordinate range keeps its centre (in doubled coordinates, so odd extents
/// are exact) and stays at least one pixel wide and high.
pub proof fn lemma_inset_keeps_center_and_area(rect: ScreenRect, gap: u32)
    requires
        rect.width >= 1,
        rect.height >= 1,
        rect.x + rect.width <= i32_max(),
        rect.y + rect.height <= i32_max(),
    ensures
        inset_rect(rect, gap).x * 2 + inset_rect(rect, gap).width == rect.x * 2 + rect.width,
        inset_rect(rect, gap).y * 2 + inset_rect(rect, gap).height == rect.y * 2 + rect.height,
        inset_rect(rect, gap).width >= 1,
        inset_rect(rect, gap).height >= 1,
        inset_rect(rect, gap).width <= rect.width,
        inset_rect(rect, gap).height <= rect.height,
{
}

/// A rectangle in logical coordinates: origin and size.
#[derive(Clone, Copy, Debug, PartialEq, Eq, Structural)]
pub struct Rect {
    pub x: i32,
    pub y: i32,
    pub width: i32,
    pub height: i32,
}

/// The length of the overlap of `[a, a + a_len)` and `[b, b + b_len)`.
pub open spec fn span_overlap(a: int, a_len: int, b: int, b_len: int) -> int {
    let start = if a >= b {
        a
    } else {
        b
    };
    let end = if a + a_len <= b + b_len {
        a + a_len
    } else {
        b + b_len
    };
    if end > start {
        end - start
    } else {
        0
    }
}

fn overlap_length(a: i32, a_len: i32, b: i32, b_len: i32) -> (r: i64)
    ensures
        r == span_overlap(a as int, a_len as int, b as int, b_len as int),
{
    let start: i64 = if a >= b {
        a as i64
    } else {
        b as i64
    };
    let a_end: i64 = a as i64 + a_len as i64;
    let b_end: i64 = b as i64 + b_len as i64;
    let end: i64 = if a_end <= b_end {
        a_end
    } else {
        b_end
    };
    if end > start {
        end - start
    } else {
        0
    }
}

/// The area two rectangles share, in square logical pixels (zero when they
/// are disjoint).
pub fn rectangle_overlap_area(first: Rect, second: Rect) -> (area: i64)
    requires
        first.width >= 0,
        first.height >= 0,
        second.width >= 0,
        second.height >= 0,
    ensures
        area == span_overlap(first.x as int, first.width as int, second.x as int, second.width as int)
            * span_overlap(first.y as int, first.height as int, second.y as int, second.height as int),
{
    let w = overlap_length(first.x, first.width, second.x, second.width);
    let h = overlap_length(first.y, first.height, second.y, second.height);
    assert(0 <= w <= first.width);
    assert(0 <= h <= first.height);
    assert(w * h <= 2147483647 * 2147483647) by (nonlinear_arith)
        requires
            0 <= w <= 2147483647,
            0 <= h <= 2147483647,
    ;
    w * h
}

/// How many of `ids` are smaller than `target`: its position once sorted.
pub open spec fn rank_below(ids: Seq<u64>, target: u64) -> nat
    decreases ids.len(),
{
    if ids.len() == 0 {
        0
    } else {
        rank_below(ids.drop_last(), target) + if ids.last() < target {
            1nat
        } else {
            0nat
        }
    }
}

/// `a / b` rounded toward zero, for a positive `b`.
pub open spec fn div_toward_zero(a: int, b: int) -> int {
    if a >= 0 {
        a / b
    } else {
        -((-a) / b)
    }
}

/// The slice of `area` shown by output `index` of `count` side-by-side outputs.
pub open spec fn output_slice(area: Rect, index: int, count: int) -> Rect {
    let left = div_toward_zero(area.width * index, count);
    let right = div_toward_zero(area.width * (index + 1), count);
    Rect {
        x: saturate_i32(area.x + left) as i32,
        y: area.y,
        width: saturate_i32(right - left) as i32,
        height: area.height,
    }
}

proof fn lemma_rank_bounds(ids: Seq<u64>, target: u64)
    ensures
        rank_below(ids, target) <= ids.len(),
        ids.contains(target) ==> rank_below(ids, target) < ids.len(),
    decreases ids.len(),
{
    if ids.len() > 0 {
        lemma_rank_bounds(ids.drop_last(), target);
        if ids.contains(target) && ids.last() != target {
            let k = choose|k: int| 0 <= k < ids.len() && ids[k] == target;
            assert(ids.drop_last()[k] == target);
        }
    }
}

proof fn lemma_scaled_fits(width: int, index: int, count: int)
    requires
        i32_min() <= width <= i32_max(),
        0 <= index <= count,
        1 <= count,
    ensures
        i32_min() <= div_toward_zero(width * index, count) <= i32_max(),
{
    if width >= 0 {
        assert(width * index <= width * count) by (nonlinear_arith)
            requires 0 <= width, index <= count;
        assert(width * index >= 0) by (nonlinear_arith)
            requires 0 <= width, 0 <= index;
        assert((width * index) / count <= width) by (nonlinear_arith)
            requires 0 <= width * index <= width * count, 1 <= count;
    } else {
        assert((-width) * index <= (-width) * count) by (nonlinear_arith)
            requires 0 <= -width, index <= count;
        assert((-width) * index >= 0) by (nonlinear_arith)
            requires 0 <= -width, 0 <= index;
        assert(((-width) * index) / count <= -width) by (nonlinear_arith)
            requires 0 <= (-width) * index <= (-width) * count, 1 <= count;
        assert(-(width * index) == (-width) * index) by (nonlinear_arith);
    }
}

fn scaled_share(width: i32, index: usize, count: usize) -> (r: i32)
    requires
        index <= count,
        1 <= count <= i32_max(),
    ensures
        r == div_toward_zero(width * index, count as int),
{
    proof {
        lemma_scaled_fits(width as int, index as int, count as int);
        assert(width * index <= 2147483647 * 2147483647 && width * index >= -2147483648 * 2147483647)
            by (nonlinear_arith)
            requires
                -2147483648 <= width <= 2147483647,
                0 <= index <= 2147483647,
        ;
    }
    let product: i64 = width as i64 * index as i64;
    let share: i64 = if product >= 0 {
        product / (count as i64)
    } else {
        -((-product) / (count as i64))
    };
    share as i32
}

/// The part of `area` that the output `target` shows when the outputs `ids`
/// split it side by side in ascending id order, widths differing by at most
/// one pixel. `None` when `target` is not among `ids`.
pub fn split_output_area(area: Rect, ids: &Vec<u64>, target: u64) -> (slice: Option<Rect>)
    ensures
        !ids@.contains(target) ==> slice is None,
        ids@.len() > i32_max() ==> slice is None,
        ids@.contains(target) && ids@.len() <= i32_max() ==> slice == Some(
            output_slice(area, rank_below(ids@, target) as int, ids@.len() as int),
        ),
{
    let mut rank: usize = 0;
    let mut present = false;
    let mut i: usize = 0;
    while i < ids.len()
        invariant
            i <= ids.len(),
            rank == rank_below(ids@.take(i as int), target),
            rank <= i,
            present == ids@.take(i as int).contains(target),
        decreases ids.len() - i,
    {
        assert(ids@.take(i as int + 1).drop_last() == ids@.take(i as int));
        proof {
            if ids@.take(i as int).contains(target) {
                let k = choose|k: int| 0 <= k < i && #[trigger] ids@.take(i as int)[k] == target;
                assert(ids@.take(i as int + 1)[k] == target);
            }
            if ids@.take(i as int + 1).contains(target) && ids@[i as int] != target {
                let k = choose|k: int| 0 <= k < i + 1 && #[trigger] ids@.take(i as int + 1)[k] == target;
                assert(ids@.take(i as int)[k] == target);
            }
            assert(ids@.take(i as int + 1)[i as int] == ids@[i as int]);
        }
        if ids[i] < target {
            rank = rank + 1;
        }
        if ids[i] == target {
            present = true;
        }
        i = i + 1;
    }
    assert(ids@.take(ids.len() as int) == ids@);
    if !present || ids.len() > 0x7fff_ffff {
        return None;
    }
    proof {
        lemma_rank_bounds(ids@, target);
    }
    let count = ids.len();
    let left = scaled_share(area.width, rank, count);
    let right = scaled_share(area.width, rank + 1, count);
    Some(
        Rect {
            x: saturating_add_i32(area.x, left),
            y: area.y,
            width: saturating_sub_i32(right, left),
            height: area.height,
        },
    )
}

/// Side-by-side slices tile the area without gaps or overlap: the first
/// starts at the area's left edge, each ends where the next begins, and the
/// last ends at the area's right edge.
pub proof fn lemma_output_slices_tile(area: Rect, index: int, count: int)
    requires
        0 <= index < count,
        count <= i32_max(),
        area.width >= 0,
        area.x + area.width <= i32_max(),
    ensures
        output_slice(area, 0, count).x == area.x,
        index + 1 < count ==> output_slice(area, index, count).x + output_slice(area, index, count).width
            == output_slice(area, index + 1, count).x,
        output_slice(area, count - 1, count).x + output_slice(area, count - 1, count).width == area.x
            + area.width,
{
    let w = area.width as int;
    assert(w * 0 == 0);
    assert(w * count / count == w) by (nonlinear_arith)
        requires 1 <= count;
    assert forall|k: int| 0 <= k <= count implies 0 <= #[trigger] (w * k / count) <= w by {
        assert(0 <= w * k <= w * count) by (nonlinear_arith)
            requires 0 <= w, 0 <= k <= count;
        assert(w * k / count <= w * count / count) by (nonlinear_arith)
            requires 0 <= w * k <= w * count, 1 <= count;
    }
    assert forall|k: int| 0 <= k < count implies w * k / count <= #[trigger] (w * (k + 1) / count) by {
        assert(w * k <= w * (k + 1)) by (nonlinear_arith)
            requires 0 <= w;
        assert(w * k / count <= w * (k + 1) / count) by (nonlinear_arith)
            requires 0 <= w * k <= w * (k + 1), 1 <= count;
        assert(0 <= w * k) by (nonlinear_arith)
            requires 0 <= w, 0 <= k;
    }
    assert(0 <= w * index / count <= w);
    assert(0 <= w * (index + 1) / count <= w);
    assert(w * index / count <= w * (index + 1) / count);
    if index + 1 < count {
        assert(0 <= w * (index + 2) / count <= w);
        assert(w * (index + 1) / count <= w * ((index + 1) + 1) / count);
        assert(w * ((index + 1) + 1) == w * (index + 2)) by (nonlinear_arith);
    }
    assert(0 <= w * (count - 1) / count <= w);
    assert(w * ((count - 1) + 1) == w * count) by (nonlinear_arith);
}

} // verus!
