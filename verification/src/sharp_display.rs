//! The Sharp memory display's frame buffer: one bit per pixel, a dirty flag
//! per line, drawing of masked monochrome chunks, and the SPI wire format
//! that sends the dirty lines.
use vstd::prelude::*;

verus! {

/// Display width in pixels.
pub const WIDTH: usize = 400;
/// Display height in lines.
pub const HEIGHT: usize = 240;
/// Bytes per line: one bit per pixel.
pub const WIDTH_BYTES: usize = 50;

/// Bytes of one line on the wire: line number, pixels, dummy byte.
pub const LINE_BYTES: usize = 52;
/// Bytes of a whole frame on the wire: command, all lines, dummy byte.
pub const FRAME_BYTES: usize = 12482;

/// Command byte: toggle VCOM only.
pub const TOGGLE_VCOM: u8 = 0b0000_0000;
/// Command byte: write lines.
pub const WRITE_LINE: u8 = 0b0000_0001;
/// Command bit carrying the VCOM level.
pub const VCOM_MASK: u8 = 0b0000_0010;

/// One entire frame, one bit per pixel (bit `x % 8` of byte
/// `y * 50 + x / 8`), with a dirty flag per line.
pub struct FullFrame {
    pub frame: Vec<u8>,
    pub dirty_line: Vec<bool>,
}

/// A chunk of a monochrome image to draw: `width` pixels per row from
/// `(start_x, start_y)`, one byte per pixel in `data`, drawn where the
/// matching byte of `mask` is non-zero.
pub struct MonoChunk {
    pub start_x: u32,
    pub start_y: u32,
    pub width: u32,
    pub data: Vec<u8>,
    pub mask: Vec<u8>,
}

/// Whether bit `k` of byte `b` is set.
pub open spec fn bit_of(b: u8, k: int) -> bool {
    (b >> (k as u8)) & 1 == 1
}

/// Whether pixel `(x, y)` of a frame buffer is lit.
pub open spec fn pixel(frame: Seq<u8>, x: int, y: int) -> bool {
    bit_of(frame[y * 50 + x / 8], x % 8)
}

/// Whether a luma value lights a pixel.
pub open spec fn lit(luma: u8) -> bool {
    luma > 128
}

/// Whether the chunk has a drawn pixel at `(cx, cy)` of its own coordinates.
pub open spec fn chunk_has(c: MonoChunk, cx: int, cy: int) -> bool {
    let i = cy * c.width + cx;
    &&& 0 <= cx < c.width
    &&& 0 <= cy
    &&& i < c.data@.len()
    &&& i < c.mask@.len()
    &&& c.mask@[i] != 0
}

/// The luma drawn for chunk pixel `(cx, cy)`: black below 128, else white.
pub open spec fn chunk_luma(c: MonoChunk, cx: int, cy: int) -> u8 {
    if c.data@[cy * c.width + cx] < 128 { 0 } else { 255 }
}

/// Whether the chunk draws display pixel `(x, y)`.
pub open spec fn covers(c: MonoChunk, x: int, y: int) -> bool {
    chunk_has(c, x - c.start_x, y - c.start_y)
}

impl FullFrame {
    /// The frame buffer is one full frame with one flag per line.
    pub open spec fn wf(&self) -> bool {
        self.frame@.len() == HEIGHT * WIDTH_BYTES && self.dirty_line@.len() == HEIGHT
    }

    /// A blank frame with every line dirty.
    pub fn new() -> (r: FullFrame)
        ensures
            r.wf(),
            forall|i: int| 0 <= i < r.frame@.len() ==> r.frame@[i] == 0,
            forall|y: int| 0 <= y < HEIGHT ==> r.dirty_line@[y],
    {
        let mut frame: Vec<u8> = Vec::new();
        let mut i: usize = 0;
        while i < HEIGHT * WIDTH_BYTES
            invariant
                i <= HEIGHT * WIDTH_BYTES,
                frame@.len() == i,
                forall|j: int| 0 <= j < i ==> frame@[j] == 0,
            decreases HEIGHT * WIDTH_BYTES - i,
        {
            frame.push(0);
            i += 1;
        }
        let mut dirty_line: Vec<bool> = Vec::new();
        let mut i: usize = 0;
        while i < HEIGHT
            invariant
                i <= HEIGHT,
                dirty_line@.len() == i,
                forall|j: int| 0 <= j < i ==> dirty_line@[j],
            decreases HEIGHT - i,
        {
            dirty_line.push(true);
            i += 1;
        }
        FullFrame { frame, dirty_line }
    }

    /// Sets pixel `(x, y)` to a luma value: lit above 128. Marks the line
    /// dirty. Pixels right of the display or below line 240 are ignored.
    pub fn set_px(&mut self, x: usize, y: usize, luma: u8)
        requires
            old(self).wf(),
            !(x < WIDTH && y == HEIGHT),
        ensures
            final(self).wf(),
            x >= WIDTH || y > HEIGHT ==> final(self).frame@ == old(self).frame@ && final(self).dirty_line@
                == old(self).dirty_line@,
            x < WIDTH && y < HEIGHT ==> {
                &&& final(self).dirty_line@ == old(self).dirty_line@.update(y as int, true)
                &&& pixel(final(self).frame@, x as int, y as int) == lit(luma)
                &&& forall|px: int, py: int|
                    0 <= px < WIDTH && 0 <= py < HEIGHT && (px != x || py != y) ==> pixel(
                        final(self).frame@,
                        px,
                        py,
                    ) == pixel(old(self).frame@, px, py)
            },
    {
        if x >= WIDTH || y > HEIGHT {
            return;
        }
        self.dirty_line.set(y, true);
        set_frame_px(&mut self.frame, x, y, luma);
    }
}

/// Sets pixel `(x, y)` of a one-bit frame buffer to a luma value: lit above
/// 128. No other pixel changes.
pub fn set_frame_px(frame: &mut Vec<u8>, x: usize, y: usize, luma: u8)
    requires
        old(frame)@.len() == HEIGHT * WIDTH_BYTES,
        x < WIDTH,
        y < HEIGHT,
    ensures
        final(frame)@.len() == HEIGHT * WIDTH_BYTES,
        pixel(final(frame)@, x as int, y as int) == lit(luma),
        forall|px: int, py: int|
            0 <= px < WIDTH && 0 <= py < HEIGHT && (px != x || py != y) ==> pixel(final(frame)@, px, py)
                == pixel(old(frame)@, px, py),
{
    let byte_x = x / 8;
    let bit_x = (x % 8) as u8;
    let idx = y * WIDTH_BYTES + byte_x;
    let old_b = frame[idx];
    let new_b = if luma > 128 {
        old_b | (1u8 << bit_x)
    } else {
        old_b & !(1u8 << bit_x)
    };
    frame.set(idx, new_b);
    proof {
        lemma_set_bit(old_b, bit_x, luma > 128, new_b);
        let f0 = old(frame)@;
        let f1 = frame@;
        assert forall|px: int, py: int|
            0 <= px < WIDTH && 0 <= py < HEIGHT && (px != x || py != y) implies pixel(f1, px, py)
            == pixel(f0, px, py) by {
            let j = py * 50 + px / 8;
            if j == idx {
                let a = px / 8;
                let b = byte_x as int;
                assert(0 <= a < 50);
                assert(0 <= b < 50);
                assert(py == y && a == b) by (nonlinear_arith)
                    requires
                        py * 50 + a == y * 50 + b,
                        0 <= a < 50,
                        0 <= b < 50,
                ;
                assert(px % 8 != x % 8);
            } else {
                assert(0 <= j < 12000) by (nonlinear_arith)
                    requires j == py * 50 + px / 8, 0 <= px < 400, 0 <= py < 240;
            }
        }
    }
}

/// Setting or clearing bit `k` of a byte changes that bit and no other.
proof fn lemma_set_bit(b: u8, k: u8, set: bool, nb: u8)
    requires
        k < 8,
        nb == (if set { b | (1u8 << k) } else { b & !(1u8 << k) }),
    ensures
        bit_of(nb, k as int) == set,
        forall|j: int| 0 <= j < 8 && j != k ==> bit_of(nb, j) == bit_of(b, j),
{
    assert forall|j: int| 0 <= j < 8 && j != k implies bit_of(nb, j) == bit_of(b, j) by {
        let jj = j as u8;
        assert(((b | (1u8 << k)) >> jj) & 1 == (b >> jj) & 1 && ((b & !(1u8 << k)) >> jj) & 1 == (b
            >> jj) & 1) by (bit_vector)
            requires k < 8, jj < 8, jj != k;
    }
    assert(((b | (1u8 << k)) >> k) & 1 == 1 && ((b & !(1u8 << k)) >> k) & 1 == 0) by (bit_vector)
        requires k < 8;
}


/// Whether the chunk draws display pixel `(x, y)` among its rows before
/// `row`, or in row `row` before column `col`.
pub open spec fn drawn_before(c: MonoChunk, x: int, y: int, row: int, col: int) -> bool {
    covers(c, x, y) && (y - c.start_y < row || (y - c.start_y == row && x - c.start_x < col))
}

/// Whether line `y` gets a drawn pixel (among those drawn before `row`,
/// `col`) that lies on the display.
pub open spec fn line_drawn(c: MonoChunk, y: int, row: int, col: int) -> bool {
    exists|x: int| 0 <= x < WIDTH && #[trigger] drawn_before(c, x, y, row, col)
}

/// The chunk can be drawn without touching the line just below the display
/// (which the frame buffer does not hold) and without address overflow.
pub open spec fn chunk_drawable(c: MonoChunk) -> bool {
    &&& c.width > 0
    &&& c.start_x + c.width <= usize::MAX
    &&& c.start_y + c.data@.len() <= usize::MAX
    &&& forall|cx: int, cy: int| chunk_has(c, cx, cy) ==> !(c.start_x + cx < WIDTH && c.start_y + cy
        == HEIGHT)
}

/// The frame after drawing the whole chunk: drawn pixels take the chunk's
/// luma, others are kept; a line is dirty if it was or a pixel landed on it.
pub open spec fn drawn_frame(f0: Seq<u8>, d0: Seq<bool>, f1: Seq<u8>, d1: Seq<bool>, c: MonoChunk, row: int, col: int) -> bool {
    &&& forall|x: int, y: int| 0 <= x < WIDTH && 0 <= y < HEIGHT ==> #[trigger] pixel(f1, x, y) == (
        if drawn_before(c, x, y, row, col) {
            lit(chunk_luma(c, x - c.start_x, y - c.start_y))
        } else {
            pixel(f0, x, y)
        })
    &&& forall|y: int| 0 <= y < HEIGHT ==> #[trigger] d1[y] == (d0[y] || line_drawn(c, y, row, col))
}

/// Row `cy` and every row after it lie past the chunk's data when row `r`
/// does.
pub(crate) proof fn lemma_rows_past_end(c: MonoChunk, r: int, cx: int, cy: int)
    requires
        c.width > 0,
        0 <= r <= cy,
        r * c.width >= c.data@.len() || r * c.width >= c.mask@.len(),
    ensures
        !chunk_has(c, cx, cy),
{
    if 0 <= cx {
        assert(cy * c.width + cx >= r * c.width) by (nonlinear_arith)
            requires r <= cy, c.width > 0, 0 <= cx;
    }
}

impl FullFrame {
    /// Draws a monochrome chunk onto the frame, for a display `width` by
    /// `height` pixels: each masked chunk pixel becomes black (data below
    /// 128) or white. A chunk starting off the display draws nothing.
    pub fn draw_to(&mut self, src: &MonoChunk, width: u32, height: u32)
        requires
            old(self).wf(),
            src.start_y < height && src.start_x < width ==> chunk_drawable(*src),
        ensures
            final(self).wf(),
            src.start_y >= height || src.start_x >= width ==> final(self).frame@ == old(self).frame@
                && final(self).dirty_line@ == old(self).dirty_line@,
            src.start_y < height && src.start_x < width ==> drawn_frame(
                old(self).frame@,
                old(self).dirty_line@,
                final(self).frame@,
                final(self).dirty_line@,
                *src,
                src.data@.len() as int,
                0,
            ),
    {
        if src.start_y >= height {
            return;
        }
        if src.start_x >= width {
            return;
        }
        let ghost f0 = self.frame@;
        let ghost d0 = self.dirty_line@;
        let w = src.width as usize;
        let sx = src.start_x as usize;
        let sy = src.start_y as usize;
        let dlen = src.data.len();
        let mlen = src.mask.len();
        let mut r: usize = 0;
        let mut base: usize = 0;
        let mut more: bool = dlen > 0 && mlen > 0;
        while more
            invariant
                self.wf(),
                chunk_drawable(*src),
                w == src.width,
                sx == src.start_x,
                sy == src.start_y,
                dlen == src.data@.len(),
                mlen == src.mask@.len(),
                more ==> base == r * w && base < dlen && base < mlen,
                !more ==> r * w >= dlen || r * w >= mlen,
                r <= dlen,
                f0.len() == HEIGHT * WIDTH_BYTES,
                d0.len() == HEIGHT,
                drawn_frame(f0, d0, self.frame@, self.dirty_line@, *src, r as int, 0),
            decreases dlen - r,
        {
            proof {
                assert(r <= base) by (nonlinear_arith)
                    requires base == r * w, w > 0;
            }
            let mut col: usize = 0;
            while col < w && col < dlen - base && col < mlen - base
                invariant
                    self.wf(),
                    chunk_drawable(*src),
                    w == src.width,
                    sx == src.start_x,
                    sy == src.start_y,
                    dlen == src.data@.len(),
                    mlen == src.mask@.len(),
                    base == r * w,
                    base < dlen,
                    base < mlen,
                    r <= base,
                    col <= w,
                    f0.len() == HEIGHT * WIDTH_BYTES,
                    d0.len() == HEIGHT,
                    drawn_frame(f0, d0, self.frame@, self.dirty_line@, *src, r as int, col as int),
                decreases w - col,
            {
                let i = base + col;
                if src.mask[i] != 0 {
                    let luma: u8 = if src.data[i] < 128 { 0 } else { 255 };
                    let ghost fa = self.frame@;
                    let ghost da = self.dirty_line@;
                    proof {
                        assert(chunk_has(*src, col as int, r as int));
                    }
                    self.set_px(sx + col, sy + r, luma);
                    proof {
                        let x0 = (sx + col) as int;
                        let y0 = (sy + r) as int;
                        assert forall|x: int, y: int| 0 <= x < WIDTH && 0 <= y < HEIGHT implies #[trigger] pixel(self.frame@, x, y) == (
                            if drawn_before(*src, x, y, r as int, col + 1) {
                                lit(chunk_luma(*src, x - src.start_x, y - src.start_y))
                            } else {
                                pixel(f0, x, y)
                            }) by {
                            assert(pixel(fa, x, y) == (if drawn_before(*src, x, y, r as int, col as int) {
                                lit(chunk_luma(*src, x - src.start_x, y - src.start_y))
                            } else {
                                pixel(f0, x, y)
                            }));
                        }
                        assert forall|y: int| 0 <= y < HEIGHT implies #[trigger] self.dirty_line@[y] == (d0[y] || line_drawn(*src, y, r as int, col + 1)) by {
                            assert(da[y] == (d0[y] || line_drawn(*src, y, r as int, col as int)));
                            if line_drawn(*src, y, r as int, col + 1) && !line_drawn(*src, y, r as int, col as int) {
                                let x = choose|x: int| 0 <= x < WIDTH && #[trigger] drawn_before(*src, x, y, r as int, col + 1);
                                assert(!drawn_before(*src, x, y, r as int, col as int));
                                assert(x == x0 && y == y0);
                            }
                            if y == y0 && x0 < WIDTH {
                                assert(drawn_before(*src, x0, y0, r as int, col + 1));
                            }
                            if line_drawn(*src, y, r as int, col as int) {
                                let x = choose|x: int| 0 <= x < WIDTH && #[trigger] drawn_before(*src, x, y, r as int, col as int);
                                assert(drawn_before(*src, x, y, r as int, col + 1));
                            }
                        }
                    }
                } else {
                    proof {
                        assert forall|x: int, y: int| 0 <= x < WIDTH && 0 <= y < HEIGHT implies drawn_before(*src, x, y, r as int, col + 1)
                            == drawn_before(*src, x, y, r as int, col as int) by {}
                        assert forall|y: int| 0 <= y < HEIGHT implies line_drawn(*src, y, r as int, col + 1)
                            == line_drawn(*src, y, r as int, col as int) by {
                            if line_drawn(*src, y, r as int, col + 1) {
                                let x = choose|x: int| 0 <= x < WIDTH && #[trigger] drawn_before(*src, x, y, r as int, col + 1);
                                assert(drawn_before(*src, x, y, r as int, col as int));
                            }
                            if line_drawn(*src, y, r as int, col as int) {
                                let x = choose|x: int| 0 <= x < WIDTH && #[trigger] drawn_before(*src, x, y, r as int, col as int);
                                assert(drawn_before(*src, x, y, r as int, col + 1));
                            }
                        }
                    }
                }
                col += 1;
            }
            proof {
                assert(base + w == (r + 1) * w) by (nonlinear_arith)
                    requires base == r * w;
                assert forall|x: int, y: int| 0 <= x < WIDTH && 0 <= y < HEIGHT implies drawn_before(*src, x, y, r as int, col as int)
                    == drawn_before(*src, x, y, r + 1, 0) by {}
                assert forall|y: int| 0 <= y < HEIGHT implies line_drawn(*src, y, r as int, col as int)
                    == line_drawn(*src, y, r + 1, 0) by {
                    if line_drawn(*src, y, r + 1, 0) {
                        let x = choose|x: int| 0 <= x < WIDTH && #[trigger] drawn_before(*src, x, y, r + 1, 0);
                        assert(drawn_before(*src, x, y, r as int, col as int));
                    }
                    if line_drawn(*src, y, r as int, col as int) {
                        let x = choose|x: int| 0 <= x < WIDTH && #[trigger] drawn_before(*src, x, y, r as int, col as int);
                        assert(drawn_before(*src, x, y, r + 1, 0));
                    }
                }
            }
            if w < dlen - base && w < mlen - base {
                base = base + w;
            } else {
                more = false;
            }
            r = r + 1;
        }
        proof {
            let n = dlen as int;
            assert forall|x: int, y: int| 0 <= x < WIDTH && 0 <= y < HEIGHT implies drawn_before(*src, x, y, r as int, 0)
                == drawn_before(*src, x, y, n, 0) by {
                let cy = y - src.start_y;
                if covers(*src, x, y) && cy >= r {
                    lemma_rows_past_end(*src, r as int, x - src.start_x, cy);
                }
                if covers(*src, x, y) && cy < n {
                } 
            }
            assert forall|y: int| 0 <= y < HEIGHT implies line_drawn(*src, y, r as int, 0) == line_drawn(*src, y, n, 0) by {
                if line_drawn(*src, y, n, 0) {
                    let x = choose|x: int| 0 <= x < WIDTH && #[trigger] drawn_before(*src, x, y, n, 0);
                    assert(drawn_before(*src, x, y, r as int, 0));
                }
                if line_drawn(*src, y, r as int, 0) {
                    let x = choose|x: int| 0 <= x < WIDTH && #[trigger] drawn_before(*src, x, y, r as int, 0);
                    assert(drawn_before(*src, x, y, n, 0));
                }
            }
        }
    }
}


/// Whether any line is marked dirty.
pub open spec fn any_dirty(dirty: Seq<bool>) -> bool {
    exists|y: int| 0 <= y < HEIGHT && #[trigger] dirty[y]
}

/// How many of the first `n` lines are dirty.
pub open spec fn dirty_count(dirty: Seq<bool>, n: int) -> nat
    decreases n,
{
    if n <= 0 {
        0
    } else {
        dirty_count(dirty, n - 1) + (if dirty[n - 1] { 1nat } else { 0nat })
    }
}

/// One line on the wire: its 1-based number, its pixels, a dummy byte.
pub open spec fn line_wire(frame: Seq<u8>, y: int) -> Seq<u8> {
    seq![(y + 1) as u8] + frame.subrange(y * 50, y * 50 + 50) + seq![0u8]
}

/// The dirty lines among the first `n`, in order, in their wire format.
pub open spec fn dirty_lines_wire(frame: Seq<u8>, dirty: Seq<bool>, n: int) -> Seq<u8>
    decreases n,
{
    if n <= 0 {
        Seq::empty()
    } else {
        dirty_lines_wire(frame, dirty, n - 1) + (if dirty[n - 1] {
            line_wire(frame, n - 1)
        } else {
            Seq::empty()
        })
    }
}

/// The command byte with the VCOM bit set to `vcom`.
pub open spec fn with_vcom(cmd: u8, vcom: bool) -> u8 {
    if vcom { cmd | VCOM_MASK } else { cmd }
}

/// The message sent to the display for a frame: the dirty lines after a
/// write command, or a bare VCOM toggle when no line is dirty; then one
/// dummy byte.
pub open spec fn frame_message(frame: Seq<u8>, dirty: Seq<bool>, vcom: bool) -> Seq<u8> {
    if any_dirty(dirty) {
        seq![with_vcom(WRITE_LINE, vcom)] + dirty_lines_wire(frame, dirty, HEIGHT as int) + seq![0u8]
    } else {
        seq![with_vcom(TOGGLE_VCOM, vcom), 0u8]
    }
}

proof fn lemma_dirty_count_bound(dirty: Seq<bool>, n: int)
    requires
        0 <= n,
    ensures
        dirty_count(dirty, n) <= n,
    decreases n,
{
    if n > 0 {
        lemma_dirty_count_bound(dirty, n - 1);
    }
}

impl FullFrame {
    /// Renders the message that sends the frame to the display and clears
    /// every dirty flag. Returns the message and the number of lines in it.
    pub fn render(&mut self, vcom: bool) -> (r: (Vec<u8>, usize))
        requires
            old(self).wf(),
        ensures
            final(self).wf(),
            final(self).frame@ == old(self).frame@,
            r.0@ == frame_message(old(self).frame@, old(self).dirty_line@, vcom),
            r.1 == dirty_count(old(self).dirty_line@, HEIGHT as int),
            forall|y: int| 0 <= y < HEIGHT ==> !#[trigger] final(self).dirty_line@[y],
            r.0@.len() <= FRAME_BYTES,
    {
        let mut any = false;
        let mut y: usize = 0;
        while y < HEIGHT
            invariant
                self.wf(),
                y <= HEIGHT,
                any == exists|j: int| 0 <= j < y && #[trigger] self.dirty_line@[j],
            decreases HEIGHT - y,
        {
            if self.dirty_line[y] {
                any = true;
            }
            y += 1;
        }
        let mut buf: Vec<u8> = Vec::new();
        if !any {
            let cmd = if vcom { TOGGLE_VCOM | VCOM_MASK } else { TOGGLE_VCOM };
            buf.push(cmd);
            buf.push(0);
            proof {
                assert(dirty_count(self.dirty_line@, HEIGHT as int) == 0) by {
                    lemma_no_dirty_count(self.dirty_line@, HEIGHT as int);
                }
            }
            return (buf, 0);
        }
        let ghost f = self.frame@;
        let ghost d0 = self.dirty_line@;
        let cmd = if vcom { WRITE_LINE | VCOM_MASK } else { WRITE_LINE };
        buf.push(cmd);
        let mut drawn: usize = 0;
        let mut y: usize = 0;
        while y < HEIGHT
            invariant
                self.wf(),
                self.frame@ == f,
                f.len() == HEIGHT * WIDTH_BYTES,
                d0.len() == HEIGHT,
                y <= HEIGHT,
                buf@ == seq![cmd] + dirty_lines_wire(f, d0, y as int),
                buf@.len() <= 1 + y * LINE_BYTES,
                drawn == dirty_count(d0, y as int),
                forall|j: int| 0 <= j < y ==> !#[trigger] self.dirty_line@[j],
                forall|j: int| y <= j < HEIGHT ==> #[trigger] self.dirty_line@[j] == d0[j],
            decreases HEIGHT - y,
        {
            proof {
                lemma_dirty_count_bound(d0, y as int);
            }
            if self.dirty_line[y] {
                self.dirty_line.set(y, false);
                let ghost start = buf@;
                buf.push((y as u8) + 1);
                let base = y * WIDTH_BYTES;
                let mut k: usize = 0;
                while k < WIDTH_BYTES
                    invariant
                        self.frame@ == f,
                        f.len() == HEIGHT * WIDTH_BYTES,
                        y < HEIGHT,
                        base == y * WIDTH_BYTES,
                        k <= WIDTH_BYTES,
                        buf@ == start + seq![(y + 1) as u8] + f.subrange(base as int, base + k),
                    decreases WIDTH_BYTES - k,
                {
                    buf.push(self.frame[base + k]);
                    proof {
                        assert(f.subrange(base as int, base + k + 1) == f.subrange(base as int, base + k).push(f[base + k]));
                    }
                    k += 1;
                }
                buf.push(0);
                drawn += 1;
                proof {
                    assert(buf@ == start + line_wire(f, y as int));
                }
            }
            y += 1;
        }
        buf.push(0);
        (buf, drawn)
    }
}

/// No dirty line counts none.
proof fn lemma_no_dirty_count(dirty: Seq<bool>, n: int)
    requires
        0 <= n <= HEIGHT,
        forall|y: int| 0 <= y < n ==> !#[trigger] dirty[y],
    ensures
        dirty_count(dirty, n) == 0,
    decreases n,
{
    if n > 0 {
        lemma_no_dirty_count(dirty, n - 1);
    }
}

} // verus!
