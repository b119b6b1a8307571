//! Image-copy capture: when a capture is refused, which framebuffer rows a
//! captured region is read from, and whether a client's shared-memory
//! buffer can take the pixels. The GPU read and the copy into the buffer are
//! done by the caller.

use vstd::prelude::*;

verus! {

/// Captures are refused while the session is locked: a locked session gives
/// no buffer constraints, and every frame asked for fails as stopped.
pub fn capture_allowed(locked: bool) -> (allowed: bool)
    ensures
        allowed == !locked,
{
    !locked
}

/// The region of a framebuffer `framebuffer_height` rows high to read for a
/// capture of the region at `(x, y)` sized `width` by `height` in top-down
/// coordinates: the framebuffer's rows count from the bottom, so the region
/// is flipped vertically. `None` when the flipped row does not fit in an
/// `i32`.
pub fn capture_read_region(x: i32, y: i32, width: i32, height: i32, framebuffer_height: i32) -> (r: Option<
    (i32, i32, i32, i32),
>)
    ensures
        i32::MIN <= framebuffer_height - y - height <= i32::MAX ==> r == Some(
            (x, (framebuffer_height - y - height) as i32, width, height),
        ),
        !(i32::MIN <= framebuffer_height - y - height <= i32::MAX) ==> r is None,
{
    let flipped: i64 = framebuffer_height as i64 - y as i64 - height as i64;
    if flipped < i32::MIN as i64 || flipped > i32::MAX as i64 {
        None
    } else {
        Some((x, flipped as i32, width, height))
    }
}

/// Where the rows of a captured region go in a shared-memory buffer.
#[derive(Clone, Copy, Debug, PartialEq, Eq, Structural)]
pub struct CopyLayout {
    /// The bytes of one row of ARGB8888 pixels.
    pub row_bytes: usize,
    /// The bytes from one row of the buffer to the next.
    pub stride: usize,
    /// Where the first row starts in the buffer.
    pub offset: usize,
    /// The number of rows.
    pub rows: usize,
}

/// Whether a buffer of `target_len` bytes with the given `stride` and
/// `offset` can take a `width` by `height` region read as `source_len`
/// bytes of ARGB8888 pixels: every size is non-negative, each row of the
/// buffer holds a row of pixels, the last row ends within the buffer, and
/// the pixels read cover the whole region, with no size beyond `usize`.
pub open spec fn layout_fits(
    width: int,
    height: int,
    stride: int,
    offset: int,
    target_len: int,
    source_len: int,
) -> bool {
    &&& width >= 0 && height >= 0 && stride >= 0 && offset >= 0
    &&& width * 4 <= usize::MAX
    &&& stride * height <= usize::MAX
    &&& offset + stride * height <= usize::MAX
    &&& width * 4 * height <= usize::MAX
    &&& stride >= width * 4
    &&& offset + stride * height <= target_len
    &&& width * 4 * height <= source_len
}

/// Checks the layout of a shared-memory capture buffer: the layout to copy
/// with when the region fits, and `None` otherwise.
pub fn shm_copy_layout(width: i32, height: i32, stride: i32, offset: i32, target_len: usize, source_len: usize) -> (r: Option<
    CopyLayout,
>)
    ensures
        r is Some <==> layout_fits(
            width as int,
            height as int,
            stride as int,
            offset as int,
            target_len as int,
            source_len as int,
        ),
        r matches Some(l) ==> l == (CopyLayout {
            row_bytes: (width * 4) as usize,
            stride: stride as usize,
            offset: offset as usize,
            rows: height as usize,
        }),
{
    if width < 0 || height < 0 || stride < 0 || offset < 0 {
        return None;
    }
    let w = width as usize;
    let h = height as usize;
    let st = stride as usize;
    let off = offset as usize;
    let row_bytes = match w.checked_mul(4) {
        Some(b) => b,
        None => return None,
    };
    let target_size = match st.checked_mul(h) {
        Some(size) => size,
        None => return None,
    };
    let target_end = match off.checked_add(target_size) {
        Some(end) => end,
        None => return None,
    };
    let source_size = match row_bytes.checked_mul(h) {
        Some(size) => size,
        None => return None,
    };
    if st < row_bytes || target_end > target_len || source_size > source_len {
        return None;
    }
    Some(CopyLayout { row_bytes, stride: st, offset: off, rows: h })
}

} // verus!
