//! Software rendering into a framebuffer of four bytes per pixel.

use vstd::prelude::*;

verus! {

/// A 2D graphics context for rendering into an RGBA8 framebuffer.
pub struct Graphics<'a> {
    /// The raw pixel buffer in RGBA format (4 bytes per pixel).
    pub buf: &'a mut [u8],
    /// Width of the framebuffer in pixels.
    pub width: usize,
    /// Height of the framebuffer in pixels.
    pub height: usize,
    /// Number of bytes per scanline (usually width * 4).
    pub stride: usize,
}

/// The smaller of two numbers.
pub open spec fn smaller(a: int, b: int) -> int {
    if a <= b {
        a
    } else {
        b
    }
}

/// The number of columns of a rectangle at `x`, `w` wide, that a screen shows.
pub open spec fn shown_cols(width: int, x: int, w: int) -> int {
    if x >= width {
        0
    } else {
        smaller(w, width - x)
    }
}

/// A buffer in which `cols` pixels from the byte `start` on have the given color.
pub open spec fn painted_row(buf: Seq<u8>, start: int, cols: int, color: Seq<u8>) -> Seq<u8> {
    Seq::new(
        buf.len(),
        |i: int|
            if start <= i < start + 4 * cols {
                color[(i - start) % 4]
            } else {
                buf[i]
            },
    )
}

/// A buffer in which the rows from `first` up to `end` have been painted in turn, each
/// from column `x` on.
pub open spec fn painted_rows(
    buf: Seq<u8>,
    stride: int,
    x: int,
    cols: int,
    first: int,
    end: int,
    color: Seq<u8>,
) -> Seq<u8>
    decreases end - first,
{
    if end <= first {
        buf
    } else {
        painted_row(
            painted_rows(buf, stride, x, cols, first, end - 1, color),
            (end - 1) * stride + 4 * x,
            cols,
            color,
        )
    }
}

/// A buffer in which every whole pixel has the given color.
pub open spec fn cleared(buf: Seq<u8>, color: Seq<u8>) -> Seq<u8> {
    Seq::new(
        buf.len(),
        |i: int|
            if i < buf.len() as int / 4 * 4 {
                color[i % 4]
            } else {
                buf[i]
            },
    )
}

/// The byte at `channel` of the pixel at column `px` and row `py`.
pub open spec fn pixel(buf: Seq<u8>, stride: int, px: int, py: int, channel: int) -> u8 {
    buf[py * stride + 4 * px + channel]
}

/// The drawing calls that a screen of this shape allows without leaving a buffer of
/// `len` bytes: the last row that is drawn ends inside it.
pub open spec fn rect_fits(
    len: int,
    width: int,
    height: int,
    stride: int,
    x: int,
    y: int,
    w: int,
    h: int,
) -> bool {
    let cols = shown_cols(width, x, w);
    let end = smaller(y + h, height);
    cols > 0 && y < end ==> (end - 1) * stride + 4 * (x + cols) <= len
}

/// A rectangle that is drawn in one color.
pub ghost struct Fill {
    pub x: int,
    pub y: int,
    pub w: int,
    pub h: int,
    pub color: Seq<u8>,
}

impl Fill {
    /// The pixel at column `px` and row `py` is inside the rectangle.
    pub open spec fn covers(self, px: int, py: int) -> bool {
        self.x <= px < self.x + self.w && self.y <= py < self.y + self.h
    }
}

/// The buffer after one rectangle has been drawn, as far as the screen shows it.
pub open spec fn drawn(buf: Seq<u8>, width: int, height: int, stride: int, fill: Fill) -> Seq<u8> {
    painted_rows(
        buf,
        stride,
        fill.x,
        shown_cols(width, fill.x, fill.w),
        fill.y,
        smaller(fill.y + fill.h, height),
        fill.color,
    )
}

/// The byte at `i` belongs to a pixel that is inside both the rectangle and the screen.
pub open spec fn byte_inside(width: int, height: int, stride: int, fill: Fill, i: int) -> bool {
    &&& stride > 0
    &&& i / stride < height
    &&& i % stride < 4 * width
    &&& fill.covers(i % stride / 4, i / stride)
}

/// The buffer after rectangles have been drawn one after the other.
pub open spec fn painted_all(
    buf: Seq<u8>,
    width: int,
    height: int,
    stride: int,
    fills: Seq<Fill>,
) -> Seq<u8>
    decreases fills.len(),
{
    if fills.len() == 0 {
        buf
    } else {
        drawn(
            painted_all(buf, width, height, stride, fills.drop_last()),
            width,
            height,
            stride,
            fills.last(),
        )
    }
}

/// Every rectangle can be drawn without leaving a buffer of `len` bytes.
pub open spec fn all_fit(
    len: int,
    width: int,
    height: int,
    stride: int,
    fills: Seq<Fill>,
) -> bool {
    forall|i: int|
        0 <= i < fills.len() ==> rect_fits(
            len,
            width,
            height,
            stride,
            (#[trigger] fills[i]).x,
            fills[i].y,
            fills[i].w,
            fills[i].h,
        )
}

impl<'a> Graphics<'a> {
    /// Every pixel of the screen lies in the buffer.
    pub open spec fn wf(self) -> bool {
        &&& 4 * self.width <= self.stride
        &&& self.stride * self.height <= self.buf@.len()
    }

    /// A rectangle can be drawn without leaving the buffer.
    pub open spec fn fits(self, x: int, y: int, w: int, h: int) -> bool {
        rect_fits(
            self.buf@.len() as int,
            self.width as int,
            self.height as int,
            self.stride as int,
            x,
            y,
            w,
            h,
        )
    }

    /// The buffer after a rectangle has been drawn, as far as the screen shows it.
    pub open spec fn filled(self, x: int, y: int, w: int, h: int, color: Seq<u8>) -> Seq<u8> {
        drawn(
            self.buf@,
            self.width as int,
            self.height as int,
            self.stride as int,
            Fill { x, y, w, h, color },
        )
    }

    /// `self` is `before` with another content of the buffer.
    pub open spec fn repainted(self, before: Graphics<'a>, content: Seq<u8>) -> bool {
        &&& self.buf@ == content
        &&& self.width == before.width
        &&& self.height == before.height
        &&& self.stride == before.stride
    }

    /// Create a new `Graphics` context.
    pub fn new(buf: &'a mut [u8], width: usize, height: usize, stride: usize) -> (gfx: Self)
        ensures
            gfx.buf@ == old(buf)@,
            final(gfx.buf)@ == final(buf)@,
            gfx.width == width,
            gfx.height == height,
            gfx.stride == stride,
    {
        Self { buf, width, height, stride }
    }

    /// Fills a rectangle region on the framebuffer with a solid RGBA color.
    ///
    /// Pixels outside the framebuffer boundaries are clamped safely.
    pub fn fill_rect(&mut self, x: usize, y: usize, w: usize, h: usize, color: [u8; 4])
        requires
            old(self).fits(x as int, y as int, w as int, h as int),
        ensures
            final(self).repainted(
                *old(self),
                old(self).filled(x as int, y as int, w as int, h as int, color@),
            ),
            final(final(self).buf)@ == final(old(self).buf)@,
    {
        let cols: usize = if x >= self.width {
            0
        } else if w <= self.width - x {
            w
        } else {
            self.width - x
        };
        let bottom: usize = y.saturating_add(h);
        let end: usize = if bottom <= self.height {
            bottom
        } else {
            self.height
        };
        let len: usize = self.buf.len();
        let ghost before = self.buf@;
        let ghost stride = self.stride as int;
        let mut row: usize = y;
        assert(cols as int == shown_cols(self.width as int, x as int, w as int));
        while row < end
            invariant
                y <= row,
                row <= end || row == y,
                end == smaller(y + h, self.height as int),
                cols == shown_cols(self.width as int, x as int, w as int),
                cols > 0 && y < end ==> (end - 1) * stride + 4 * (x + cols) <= before.len(),
                stride == self.stride,
                self.width == old(self).width,
                self.height == old(self).height,
                self.stride == old(self).stride,
                final(self.buf)@ == final(old(self).buf)@,
                before.len() == len,
                before == old(self).buf@,
                self.buf@.len() == before.len(),
                self.buf@ == painted_rows(
                    before,
                    stride,
                    x as int,
                    cols as int,
                    y as int,
                    row as int,
                    color@,
                ),
            decreases end - row,
        {
            let ghost above = self.buf@;
            let ghost start = row * stride + 4 * x;
            if cols > 0 {
                proof {
                    assert(row * stride <= (end - 1) * stride) by (nonlinear_arith)
                        requires
                            row <= end - 1,
                            stride >= 0,
                    ;
                    assert(0 <= row * stride) by (nonlinear_arith)
                        requires
                            0 <= row,
                            stride >= 0,
                    ;
                }
                let row_start: usize = row * self.stride + x * 4;
                let mut col: usize = 0;
                assert(self.buf@ =~= painted_row(above, start, 0, color@));
                while col < cols
                    invariant
                        col <= cols,
                        row_start == start,
                        start + 4 * cols <= above.len(),
                        above.len() <= usize::MAX,
                        above.len() == before.len(),
                        self.buf@ == painted_row(above, start, col as int, color@),
                        self.width == old(self).width,
                        self.height == old(self).height,
                        self.stride == old(self).stride,
                        final(self.buf)@ == final(old(self).buf)@,
                    decreases cols - col,
                {
                    let base: usize = row_start + col * 4;
                    self.buf[base] = color[0];
                    self.buf[base + 1] = color[1];
                    self.buf[base + 2] = color[2];
                    self.buf[base + 3] = color[3];
                    assert(self.buf@ =~= painted_row(above, start, col + 1, color@));
                    col = col + 1;
                }
            } else {
                assert(self.buf@ =~= painted_row(above, start, 0, color@));
            }
            row = row + 1;
        }
        proof {
            if end <= y {
                assert(old(self).filled(x as int, y as int, w as int, h as int, color@) == before);
            }
        }
    }

    /// Clears the entire framebuffer to a solid RGBA color.
    pub fn clear_screen(&mut self, color: [u8; 4])
        ensures
            final(self).repainted(*old(self), cleared(old(self).buf@, color@)),
            final(final(self).buf)@ == final(old(self).buf)@,
    {
        let total: usize = self.buf.len() / 4;
        let ghost before = self.buf@;
        let mut chunk: usize = 0;
        assert(self.buf@ =~= painted_row(before, 0, 0, color@));
        while chunk < total
            invariant
                chunk <= total,
                total == before.len() as int / 4,
                before.len() <= usize::MAX,
                self.buf@ == painted_row(before, 0, chunk as int, color@),
                self.width == old(self).width,
                self.height == old(self).height,
                self.stride == old(self).stride,
                final(self.buf)@ == final(old(self).buf)@,
            decreases total - chunk,
        {
            let base: usize = chunk * 4;
            self.buf[base] = color[0];
            self.buf[base + 1] = color[1];
            self.buf[base + 2] = color[2];
            self.buf[base + 3] = color[3];
            assert(self.buf@ =~= painted_row(before, 0, chunk + 1, color@));
            chunk = chunk + 1;
        }
        assert(self.buf@ =~= cleared(before, color@));
    }

    /// Allocates a boxed backbuffer for off-screen rendering or double-buffering.
    ///
    /// Returns a zero-initialized pixel buffer sized to `stride * height` bytes.
    pub fn create_backbuffer(width: usize, height: usize, stride: usize) -> (buffer: Box<[u8]>)
        requires
            stride * height <= isize::MAX,
        ensures
            buffer@ == Seq::new((stride * height) as nat, |i: int| 0u8),
    {
        let size: usize = stride * height;
        let bytes: Vec<u8> = vec![0u8; size];
        assert(bytes@ =~= Seq::new((stride * height) as nat, |i: int| 0u8));
        into_boxed_slice(bytes)
    }
}

/// On a screen that lies in its buffer every rectangle can be drawn.
pub proof fn screen_fits(len: int, width: int, height: int, stride: int, x: int, y: int, w: int, h: int)
    requires
        4 * width <= stride,
        stride * height <= len,
        0 <= x,
        0 <= y,
    ensures
        rect_fits(len, width, height, stride, x, y, w, h),
{
    let cols = shown_cols(width, x, w);
    let end = smaller(y + h, height);
    if cols > 0 && y < end {
        assert((end - 1) * stride + stride <= stride * height) by (nonlinear_arith)
            requires
                end <= height,
                0 <= stride,
        ;
    }
}

/// What painting some rows does to one pixel.
proof fn painted_rows_pixel(
    buf: Seq<u8>,
    width: int,
    height: int,
    stride: int,
    x: int,
    cols: int,
    first: int,
    end: int,
    color: Seq<u8>,
    px: int,
    py: int,
    channel: int,
)
    requires
        0 <= 4 * width <= stride,
        stride * height <= buf.len(),
        0 <= x,
        0 <= cols,
        cols > 0 ==> x + cols <= width,
        0 <= first,
        end <= height || end <= first,
        0 <= px < width,
        0 <= py < height,
        0 <= channel < 4,
    ensures
        painted_rows(buf, stride, x, cols, first, end, color).len() == buf.len(),
        0 <= py * stride + 4 * px + channel < buf.len(),
        pixel(painted_rows(buf, stride, x, cols, first, end, color), stride, px, py, channel) == (
        if first <= py < end && x <= px < x + cols {
            color[channel]
        } else {
            pixel(buf, stride, px, py, channel)
        }),
    decreases end - first,
{
    let at = py * stride + 4 * px + channel;
    assert(0 <= py * stride && py * stride + stride <= stride * height) by (nonlinear_arith)
        requires
            0 <= py < height,
            0 <= stride,
    ;
    if first < end {
        painted_rows_pixel(
            buf,
            width,
            height,
            stride,
            x,
            cols,
            first,
            end - 1,
            color,
            px,
            py,
            channel,
        );
        let start = (end - 1) * stride + 4 * x;
        if py < end - 1 {
            assert(py * stride + stride <= (end - 1) * stride) by (nonlinear_arith)
                requires
                    py < end - 1,
                    0 <= stride,
            ;
        } else if py > end - 1 {
            assert((end - 1) * stride + stride <= py * stride) by (nonlinear_arith)
                requires
                    py > end - 1,
                    0 <= stride,
            ;
        } else {
            assert(at - start == 4 * (px - x) + channel);
        }
    }
}

/// On a screen that lies in its buffer, drawing a rectangle gives its color to exactly
/// the pixels that are inside both the rectangle and the screen.
pub proof fn fill_rect_paints_the_rectangle(
    buf: Seq<u8>,
    width: int,
    height: int,
    stride: int,
    x: int,
    y: int,
    w: int,
    h: int,
    color: Seq<u8>,
    px: int,
    py: int,
    channel: int,
)
    requires
        4 * width <= stride,
        stride * height <= buf.len(),
        0 <= x,
        0 <= y,
        0 <= w,
        0 <= h,
        0 <= px < width,
        0 <= py < height,
        0 <= channel < 4,
    ensures
        pixel(
            painted_rows(
                buf,
                stride,
                x,
                shown_cols(width, x, w),
                y,
                smaller(y + h, height),
                color,
            ),
            stride,
            px,
            py,
            channel,
        ) == (if x <= px < x + w && y <= py < y + h {
            color[channel]
        } else {
            pixel(buf, stride, px, py, channel)
        }),
{
    painted_rows_pixel(
        buf,
        width,
        height,
        stride,
        x,
        shown_cols(width, x, w),
        y,
        smaller(y + h, height),
        color,
        px,
        py,
        channel,
    );
}

/// What painting some rows does to one byte of the buffer.
proof fn painted_rows_byte(
    buf: Seq<u8>,
    stride: int,
    x: int,
    cols: int,
    first: int,
    end: int,
    color: Seq<u8>,
    row: int,
    off: int,
)
    requires
        0 <= x,
        0 <= cols,
        cols > 0 ==> 4 * (x + cols) <= stride,
        0 <= first,
        0 <= row,
        0 <= off < stride,
        row * stride + off < buf.len(),
    ensures
        painted_rows(buf, stride, x, cols, first, end, color).len() == buf.len(),
        painted_rows(buf, stride, x, cols, first, end, color)[row * stride + off] == (if first
            <= row < end && 4 * x <= off < 4 * (x + cols) {
            color[off % 4]
        } else {
            buf[row * stride + off]
        }),
    decreases end - first,
{
    assert(0 <= row * stride) by (nonlinear_arith)
        requires
            0 <= row,
            0 < stride,
    ;
    if first < end {
        painted_rows_byte(buf, stride, x, cols, first, end - 1, color, row, off);
        if row < end - 1 {
            assert(row * stride + stride <= (end - 1) * stride) by (nonlinear_arith)
                requires
                    row < end - 1,
                    0 < stride,
            ;
        } else if row > end - 1 {
            assert((end - 1) * stride + stride <= row * stride) by (nonlinear_arith)
                requires
                    row > end - 1,
                    0 < stride,
            ;
        }
    }
}

/// Rows of no columns change nothing.
proof fn painted_rows_empty(
    buf: Seq<u8>,
    stride: int,
    x: int,
    first: int,
    end: int,
    color: Seq<u8>,
)
    ensures
        painted_rows(buf, stride, x, 0, first, end, color) == buf,
    decreases end - first,
{
    if first < end {
        painted_rows_empty(buf, stride, x, first, end - 1, color);
        assert(painted_rows(buf, stride, x, 0, first, end, color) =~= buf);
    }
}

/// On a screen whose rows do not overlap, drawing a rectangle changes the bytes of the pixels
/// that are inside both the rectangle and the screen, and no other byte: neither what pads the
/// rows nor what follows the last of them.
pub proof fn fill_rect_leaves_the_rest(
    buf: Seq<u8>,
    width: int,
    height: int,
    stride: int,
    fill: Fill,
    i: int,
)
    requires
        4 * width <= stride,
        0 <= stride,
        0 <= fill.x,
        0 <= fill.y,
        0 <= fill.w,
        0 <= fill.h,
        0 <= i < buf.len(),
    ensures
        drawn(buf, width, height, stride, fill).len() == buf.len(),
        drawn(buf, width, height, stride, fill)[i] == (if byte_inside(
            width,
            height,
            stride,
            fill,
            i,
        ) {
            fill.color[i % stride % 4]
        } else {
            buf[i]
        }),
{
    let cols = shown_cols(width, fill.x, fill.w);
    let end = smaller(fill.y + fill.h, height);
    painted_rows_len(buf, stride, fill.x, cols, fill.y, end, fill.color);
    if stride == 0 {
        painted_rows_empty(buf, stride, fill.x, fill.y, end, fill.color);
    } else {
        let row = i / stride;
        let off = i % stride;
        assert(0 <= row && 0 <= off < stride && row * stride + off == i) by (nonlinear_arith)
            requires
                0 <= i,
                0 < stride,
                row == i / stride,
                off == i % stride,
        ;
        painted_rows_byte(buf, stride, fill.x, cols, fill.y, end, fill.color, row, off);
    }
}

/// The byte at `i` belongs to the part of a row that a rectangle has in common with the screen.
pub open spec fn in_row(width: int, stride: int, fill: Fill, row: int, i: int) -> bool {
    let start = row * stride;
    &&& start + 4 * fill.x <= i < start + 4 * (fill.x + fill.w)
    &&& i < start + 4 * width
}

/// Whatever the shape of the screen: a byte that belongs to no row of the rectangle stays as it
/// is, and one that belongs to a row gets its part of the color from the last such row.
pub proof fn last_row_shows(
    buf: Seq<u8>,
    width: int,
    height: int,
    stride: int,
    fill: Fill,
    i: int,
    row: int,
)
    requires
        0 <= fill.w,
        0 <= i < buf.len(),
        fill.y <= row,
        forall|later: int|
            row < later < fill.y + fill.h && later < height ==> !#[trigger] in_row(
                width,
                stride,
                fill,
                later,
                i,
            ),
    ensures
        drawn(buf, width, height, stride, fill).len() == buf.len(),
        row < fill.y + fill.h && row < height && in_row(width, stride, fill, row, i) ==> drawn(
            buf,
            width,
            height,
            stride,
            fill,
        )[i] == fill.color[(i - row * stride - 4 * fill.x) % 4],
        row == fill.y && !(row < fill.y + fill.h && row < height && in_row(
            width,
            stride,
            fill,
            row,
            i,
        )) ==> drawn(buf, width, height, stride, fill)[i] == buf[i],
{
    let cols = shown_cols(width, fill.x, fill.w);
    let end = smaller(fill.y + fill.h, height);
    painted_rows_len(buf, stride, fill.x, cols, fill.y, end, fill.color);
    last_row_paints(buf, width, stride, fill, end, i, row);
}

/// The same of the rows up to `end`.
proof fn last_row_paints(
    buf: Seq<u8>,
    width: int,
    stride: int,
    fill: Fill,
    end: int,
    i: int,
    row: int,
)
    requires
        0 <= fill.w,
        0 <= i < buf.len(),
        fill.y <= row,
        forall|later: int|
            row < later < end ==> !#[trigger] in_row(width, stride, fill, later, i),
    ensures
        ({
            let painted = painted_rows(
                buf,
                stride,
                fill.x,
                shown_cols(width, fill.x, fill.w),
                fill.y,
                end,
                fill.color,
            );
            &&& painted.len() == buf.len()
            &&& row < end && in_row(width, stride, fill, row, i) ==> painted[i] == fill.color[(i
                - row * stride - 4 * fill.x) % 4]
            &&& row == fill.y && !(row < end && in_row(width, stride, fill, row, i))
                ==> painted[i] == buf[i]
        }),
    decreases end - fill.y,
{
    if fill.y < end {
        last_row_paints(buf, width, stride, fill, end - 1, i, row);
        if row < end - 1 {
            assert(!in_row(width, stride, fill, end - 1, i));
        }
    }
}

/// A rectangle hides another that was drawn before it and lies inside it.
pub proof fn fill_rect_hides_what_it_covers(
    buf: Seq<u8>,
    width: int,
    height: int,
    stride: int,
    under: Fill,
    over: Fill,
)
    requires
        4 * width <= stride,
        0 <= stride,
        stride * height <= buf.len(),
        0 <= over.x <= under.x,
        0 <= over.y <= under.y,
        0 <= under.w,
        0 <= under.h,
        under.x + under.w <= over.x + over.w,
        under.y + under.h <= over.y + over.h,
    ensures
        drawn(drawn(buf, width, height, stride, under), width, height, stride, over) == drawn(
            buf,
            width,
            height,
            stride,
            over,
        ),
{
    let first = drawn(buf, width, height, stride, under);
    let both = drawn(first, width, height, stride, over);
    let once = drawn(buf, width, height, stride, over);
    painted_lens(buf, width, height, stride, under, over);
    assert forall|i: int| 0 <= i < buf.len() implies both[i] == once[i] by {
        fill_rect_leaves_the_rest(buf, width, height, stride, under, i);
        fill_rect_leaves_the_rest(first, width, height, stride, over, i);
        fill_rect_leaves_the_rest(buf, width, height, stride, over, i);
    }
    assert(both =~= once);
}

/// Drawing a rectangle again changes nothing.
pub proof fn fill_rect_can_be_repeated(
    buf: Seq<u8>,
    width: int,
    height: int,
    stride: int,
    fill: Fill,
)
    requires
        4 * width <= stride,
        0 <= stride,
        stride * height <= buf.len(),
        0 <= fill.x,
        0 <= fill.y,
        0 <= fill.w,
        0 <= fill.h,
    ensures
        drawn(drawn(buf, width, height, stride, fill), width, height, stride, fill) == drawn(
            buf,
            width,
            height,
            stride,
            fill,
        ),
{
    fill_rect_hides_what_it_covers(buf, width, height, stride, fill, fill);
}

/// A rectangle can be drawn in two parts, side by side or one below the other.
pub proof fn fill_rect_can_be_split(
    buf: Seq<u8>,
    width: int,
    height: int,
    stride: int,
    fill: Fill,
    cut: int,
)
    requires
        4 * width <= stride,
        0 <= stride,
        stride * height <= buf.len(),
        0 <= fill.x,
        0 <= fill.y,
        0 <= fill.w,
        0 <= fill.h,
        0 <= cut,
    ensures
        cut <= fill.w ==> drawn(
            drawn(buf, width, height, stride, (Fill { w: cut, ..fill })),
            width,
            height,
            stride,
            (Fill { x: fill.x + cut, w: fill.w - cut, ..fill }),
        ) == drawn(buf, width, height, stride, fill),
        cut <= fill.h ==> drawn(
            drawn(buf, width, height, stride, (Fill { h: cut, ..fill })),
            width,
            height,
            stride,
            (Fill { y: fill.y + cut, h: fill.h - cut, ..fill }),
        ) == drawn(buf, width, height, stride, fill),
{
    if cut <= fill.w {
        parts_join(
            buf,
            width,
            height,
            stride,
            Fill { w: cut, ..fill },
            Fill { x: fill.x + cut, w: fill.w - cut, ..fill },
            fill,
        );
    }
    if cut <= fill.h {
        parts_join(
            buf,
            width,
            height,
            stride,
            Fill { h: cut, ..fill },
            Fill { y: fill.y + cut, h: fill.h - cut, ..fill },
            fill,
        );
    }
}

/// Two rectangles of one color that cover what a third covers give what it gives.
proof fn parts_join(
    buf: Seq<u8>,
    width: int,
    height: int,
    stride: int,
    a: Fill,
    b: Fill,
    whole: Fill,
)
    requires
        4 * width <= stride,
        0 <= stride,
        stride * height <= buf.len(),
        0 <= a.x,
        0 <= a.y,
        0 <= a.w,
        0 <= a.h,
        0 <= b.x,
        0 <= b.y,
        0 <= b.w,
        0 <= b.h,
        0 <= whole.x,
        0 <= whole.y,
        0 <= whole.w,
        0 <= whole.h,
        a.color == whole.color,
        b.color == whole.color,
        forall|px: int, py: int| #[trigger]
            whole.covers(px, py) <==> a.covers(px, py) || b.covers(px, py),
    ensures
        drawn(drawn(buf, width, height, stride, a), width, height, stride, b) == drawn(
            buf,
            width,
            height,
            stride,
            whole,
        ),
{
    let first = drawn(buf, width, height, stride, a);
    let both = drawn(first, width, height, stride, b);
    let once = drawn(buf, width, height, stride, whole);
    painted_lens(buf, width, height, stride, a, b);
    painted_lens(buf, width, height, stride, whole, whole);
    assert forall|i: int| 0 <= i < buf.len() implies both[i] == once[i] by {
        fill_rect_leaves_the_rest(buf, width, height, stride, a, i);
        fill_rect_leaves_the_rest(first, width, height, stride, b, i);
        fill_rect_leaves_the_rest(buf, width, height, stride, whole, i);
    }
    assert(both =~= once);
}

/// Two rectangles, one drawn after the other, keep the length of the buffer.
proof fn painted_lens(
    buf: Seq<u8>,
    width: int,
    height: int,
    stride: int,
    a: Fill,
    b: Fill,
)
    ensures
        drawn(buf, width, height, stride, a).len() == buf.len(),
        drawn(drawn(buf, width, height, stride, a), width, height, stride, b).len() == buf.len(),
        drawn(buf, width, height, stride, b).len() == buf.len(),
{
    painted_all_len(buf, width, height, stride, seq![a]);
    painted_all_len(buf, width, height, stride, seq![b]);
    painted_all_len(buf, width, height, stride, seq![a, b]);
    reveal_with_fuel(painted_all, 3);
    assert(seq![a].drop_last() =~= Seq::empty());
    assert(seq![b].drop_last() =~= Seq::empty());
    assert(seq![a, b].drop_last() =~= seq![a]);
}

/// On a screen that fills its buffer, without padding, clearing it is drawing a rectangle of
/// the size of the screen.
pub proof fn clear_screen_is_a_full_fill(
    buf: Seq<u8>,
    width: int,
    height: int,
    stride: int,
    color: Seq<u8>,
)
    requires
        0 <= width,
        0 <= height,
        stride == 4 * width,
        buf.len() == stride * height,
    ensures
        cleared(buf, color) == drawn(
            buf,
            width,
            height,
            stride,
            (Fill { x: 0, y: 0, w: width, h: height, color }),
        ),
{
    let fill = Fill { x: 0, y: 0, w: width, h: height, color };
    let once = drawn(buf, width, height, stride, fill);
    painted_lens(buf, width, height, stride, fill, fill);
    assert(buf.len() == 4 * (width * height)) by (nonlinear_arith)
        requires
            buf.len() == stride * height,
            stride == 4 * width,
    ;
    assert forall|i: int| 0 <= i < buf.len() implies cleared(buf, color)[i] == once[i] by {
        fill_rect_leaves_the_rest(buf, width, height, stride, fill, i);
        if stride == 0 {
            assert(stride * height == 0) by (nonlinear_arith)
                requires
                    stride == 0,
            ;
        } else {
            let row = i / stride;
            let off = i % stride;
            assert(0 <= row < height && 0 <= off < stride && i == stride * row + off)
                by (nonlinear_arith)
                requires
                    0 <= i < stride * height,
                    0 < stride,
                    row == i / stride,
                    off == i % stride,
            ;
            assert(i == 4 * (width * row) + off) by (nonlinear_arith)
                requires
                    i == stride * row + off,
                    stride == 4 * width,
            ;
        }
    }
    assert(cleared(buf, color) =~= once);
}

/// Clearing gives the color to every four bytes in turn, to the end of the buffer; up to three
/// bytes that are left over there stay as they are.
pub proof fn clearing_reaches_every_whole_pixel(buf: Seq<u8>, color: Seq<u8>, k: int, channel: int)
    requires
        0 <= k,
        0 <= channel < 4,
    ensures
        cleared(buf, color).len() == buf.len(),
        4 * k + 4 <= buf.len() ==> cleared(buf, color)[4 * k + channel] == color[channel],
        4 * k <= buf.len() < 4 * k + 4 && 4 * k + channel < buf.len() ==> cleared(buf, color)[4 * k
            + channel] == buf[4 * k + channel],
{
}

/// Clearing the screen hides what clearing it before has left.
pub proof fn clear_screen_hides_the_color_before(buf: Seq<u8>, earlier: Seq<u8>, color: Seq<u8>)
    ensures
        cleared(cleared(buf, earlier), color) == cleared(buf, color),
{
    assert(cleared(cleared(buf, earlier), color) =~= cleared(buf, color));
}

/// After the screen has been cleared, every pixel of it has the color.
pub proof fn clear_screen_paints_every_pixel(
    buf: Seq<u8>,
    width: int,
    height: int,
    stride: int,
    color: Seq<u8>,
    px: int,
    py: int,
    channel: int,
)
    requires
        4 * width <= stride,
        stride % 4 == 0,
        stride * height <= buf.len(),
        0 <= px < width,
        0 <= py < height,
        0 <= channel < 4,
    ensures
        pixel(cleared(buf, color), stride, px, py, channel) == color[channel],
{
    let at = py * stride + 4 * px + channel;
    let quarter = stride / 4;
    assert(0 <= py * stride && py * stride + stride <= stride * height) by (nonlinear_arith)
        requires
            0 <= py < height,
            0 <= stride,
    ;
    assert(py * stride == 4 * (py * quarter)) by (nonlinear_arith)
        requires
            stride == 4 * quarter,
    ;
    assert(at == 4 * (py * quarter + px) + channel);
}

/// Painting rows keeps the length of the buffer.
pub proof fn painted_rows_len(
    buf: Seq<u8>,
    stride: int,
    x: int,
    cols: int,
    first: int,
    end: int,
    color: Seq<u8>,
)
    ensures
        painted_rows(buf, stride, x, cols, first, end, color).len() == buf.len(),
    decreases end - first,
{
    if first < end {
        painted_rows_len(buf, stride, x, cols, first, end - 1, color);
    }
}

/// Drawing rectangles keeps the length of the buffer.
pub proof fn painted_all_len(buf: Seq<u8>, width: int, height: int, stride: int, fills: Seq<Fill>)
    ensures
        painted_all(buf, width, height, stride, fills).len() == buf.len(),
    decreases fills.len(),
{
    if fills.len() > 0 {
        let fill = fills.last();
        let before = painted_all(buf, width, height, stride, fills.drop_last());
        painted_all_len(buf, width, height, stride, fills.drop_last());
        painted_rows_len(
            before,
            stride,
            fill.x,
            shown_cols(width, fill.x, fill.w),
            fill.y,
            smaller(fill.y + fill.h, height),
            fill.color,
        );
    }
}

/// One more rectangle is drawn over those before it.
pub proof fn painted_all_push(
    buf: Seq<u8>,
    width: int,
    height: int,
    stride: int,
    fills: Seq<Fill>,
    fill: Fill,
)
    ensures
        painted_all(buf, width, height, stride, fills.push(fill)) == painted_rows(
            painted_all(buf, width, height, stride, fills),
            stride,
            fill.x,
            shown_cols(width, fill.x, fill.w),
            fill.y,
            smaller(fill.y + fill.h, height),
            fill.color,
        ),
        painted_all(buf, width, height, stride, fills).len() == buf.len(),
{
    assert(fills.push(fill).drop_last() =~= fills);
    painted_all_len(buf, width, height, stride, fills);
}

/// Rectangles can be drawn in two portions.
pub proof fn painted_all_concat(
    buf: Seq<u8>,
    width: int,
    height: int,
    stride: int,
    first: Seq<Fill>,
    second: Seq<Fill>,
)
    ensures
        painted_all(painted_all(buf, width, height, stride, first), width, height, stride, second)
            == painted_all(buf, width, height, stride, first + second),
    decreases second.len(),
{
    if second.len() == 0 {
        assert(first + second =~= first);
    } else {
        assert((first + second).drop_last() =~= first + second.drop_last());
        painted_all_concat(buf, width, height, stride, first, second.drop_last());
    }
}

/// What fits in two portions fits in each.
pub proof fn all_fit_concat(
    len: int,
    width: int,
    height: int,
    stride: int,
    first: Seq<Fill>,
    second: Seq<Fill>,
)
    requires
        all_fit(len, width, height, stride, first + second),
    ensures
        all_fit(len, width, height, stride, first),
        all_fit(len, width, height, stride, second),
{
    assert forall|i: int| 0 <= i < first.len() implies rect_fits(
        len,
        width,
        height,
        stride,
        (#[trigger] first[i]).x,
        first[i].y,
        first[i].w,
        first[i].h,
    ) by {
        assert((first + second)[i] == first[i]);
    }
    assert forall|i: int| 0 <= i < second.len() implies rect_fits(
        len,
        width,
        height,
        stride,
        (#[trigger] second[i]).x,
        second[i].y,
        second[i].w,
        second[i].h,
    ) by {
        assert((first + second)[first.len() + i] == second[i]);
    }
}

/// The color of a pixel after rectangles have been drawn: that of the last one that
/// covers it.
pub open spec fn shown_color(under: Seq<u8>, fills: Seq<Fill>, px: int, py: int) -> Seq<u8>
    decreases fills.len(),
{
    if fills.len() == 0 {
        under
    } else if fills.last().covers(px, py) {
        fills.last().color
    } else {
        shown_color(under, fills.drop_last(), px, py)
    }
}

/// On a screen that lies in its buffer, a pixel shows the last rectangle that was drawn
/// over it.
pub proof fn last_rectangle_shows(
    buf: Seq<u8>,
    width: int,
    height: int,
    stride: int,
    fills: Seq<Fill>,
    px: int,
    py: int,
    channel: int,
)
    requires
        4 * width <= stride,
        stride * height <= buf.len(),
        0 <= px < width,
        0 <= py < height,
        0 <= channel < 4,
        forall|i: int|
            0 <= i < fills.len() ==> 0 <= (#[trigger] fills[i]).x && 0 <= fills[i].y && 0
                <= fills[i].w && 0 <= fills[i].h,
    ensures
        pixel(painted_all(buf, width, height, stride, fills), stride, px, py, channel)
            == shown_color(
            Seq::new(4, |c: int| pixel(buf, stride, px, py, c)),
            fills,
            px,
            py,
        )[channel],
    decreases fills.len(),
{
    if fills.len() > 0 {
        let rest = fills.drop_last();
        let fill = fills.last();
        assert(fill == fills[fills.len() - 1]);
        assert forall|i: int| 0 <= i < rest.len() implies 0 <= (#[trigger] rest[i]).x && 0
            <= rest[i].y && 0 <= rest[i].w && 0 <= rest[i].h by {
            assert(rest[i] == fills[i]);
        }
        last_rectangle_shows(buf, width, height, stride, rest, px, py, channel);
        painted_all_len(buf, width, height, stride, rest);
        fill_rect_paints_the_rectangle(
            painted_all(buf, width, height, stride, rest),
            width,
            height,
            stride,
            fill.x,
            fill.y,
            fill.w,
            fill.h,
            fill.color,
            px,
            py,
            channel,
        );
    }
}

/// Some rectangle covers a pixel.
pub open spec fn covered(fills: Seq<Fill>, px: int, py: int) -> bool {
    exists|i: int| 0 <= i < fills.len() && (#[trigger] fills[i]).covers(px, py)
}

/// Rectangles of one color give it to every pixel that one of them covers, and to no other.
pub proof fn shown_color_of_one(
    under: Seq<u8>,
    fills: Seq<Fill>,
    color: Seq<u8>,
    px: int,
    py: int,
)
    requires
        forall|i: int| 0 <= i < fills.len() ==> (#[trigger] fills[i]).color == color,
    ensures
        shown_color(under, fills, px, py) == (if covered(fills, px, py) {
            color
        } else {
            under
        }),
    decreases fills.len(),
{
    if fills.len() > 0 {
        let rest = fills.drop_last();
        let last = fills.len() - 1;
        assert forall|i: int| 0 <= i < rest.len() implies (#[trigger] rest[i]).color == color by {
            assert(rest[i] == fills[i]);
        }
        shown_color_of_one(under, rest, color, px, py);
        assert(fills.last() == fills[last]);
        if covered(rest, px, py) {
            let i = choose|i: int| 0 <= i < rest.len() && (#[trigger] rest[i]).covers(px, py);
            assert(fills[i].covers(px, py));
        }
        if covered(fills, px, py) && !fills[last].covers(px, py) {
            let i = choose|i: int| 0 <= i < fills.len() && (#[trigger] fills[i]).covers(px, py);
            assert(rest[i].covers(px, py));
        }
    }
}

/// On a screen that lies in its buffer any rectangles can be drawn.
pub proof fn screen_fits_all(len: int, width: int, height: int, stride: int, fills: Seq<Fill>)
    requires
        4 * width <= stride,
        stride * height <= len,
        forall|i: int| 0 <= i < fills.len() ==> 0 <= (#[trigger] fills[i]).x && 0 <= fills[i].y,
    ensures
        all_fit(len, width, height, stride, fills),
{
    assert forall|i: int| 0 <= i < fills.len() implies rect_fits(
        len,
        width,
        height,
        stride,
        (#[trigger] fills[i]).x,
        fills[i].y,
        fills[i].w,
        fills[i].h,
    ) by {
        screen_fits(
            len,
            width,
            height,
            stride,
            fills[i].x,
            fills[i].y,
            fills[i].w,
            fills[i].h,
        );
    }
}

/// `Vec::into_boxed_slice`: the same bytes in a box.
#[verifier::external_body]
fn into_boxed_slice(bytes: Vec<u8>) -> (boxed: Box<[u8]>)
    ensures
        boxed@ == bytes@,
{
    bytes.into_boxed_slice()
}

/// A rectangle can be drawn exactly if every pixel that is inside both it and the screen has its
/// four bytes in the buffer.
pub proof fn fitting_is_lying_in_the_buffer(
    len: int,
    width: int,
    height: int,
    stride: int,
    x: int,
    y: int,
    w: int,
    h: int,
)
    requires
        0 <= stride,
        0 <= x,
        0 <= y,
        0 <= w,
        0 <= h,
    ensures
        rect_fits(len, width, height, stride, x, y, w, h) <==> forall|px: int, py: int|
            x <= px < x + w && px < width && y <= py < y + h && py < height ==> #[trigger] ends_at(
                stride,
                px,
                py,
            ) <= len,
{
    let cols = shown_cols(width, x, w);
    let end = smaller(y + h, height);
    if rect_fits(len, width, height, stride, x, y, w, h) {
        assert forall|px: int, py: int|
            x <= px < x + w && px < width && y <= py < y + h && py < height implies #[trigger]
            ends_at(stride, px, py) <= len by {
            assert(py * stride <= (end - 1) * stride) by (nonlinear_arith)
                requires
                    py <= end - 1,
                    0 <= stride,
            ;
        }
    }
    if cols > 0 && y < end {
        assert(ends_at(stride, x + cols - 1, end - 1) == (end - 1) * stride + 4 * (x + cols));
    }
}

/// Where the bytes of a pixel end in the buffer.
pub open spec fn ends_at(stride: int, px: int, py: int) -> int {
    py * stride + 4 * px + 4
}

} // verus!
