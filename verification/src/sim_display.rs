//! The simulators' frame buffer: one grey byte per pixel, onto which
//! clients' monochrome chunks are drawn.
use crate::sharp_display::{chunk_has, covers, drawn_before, MonoChunk};
use vstd::prelude::*;

verus! {

/// The value a drawn chunk pixel takes at display pixel `(x, y)`.
pub open spec fn chunk_value(c: MonoChunk, x: int, y: int) -> u8 {
    c.data@[(y - c.start_y) * c.width + (x - c.start_x)]
}

/// The frame buffer `new` is `old` with the chunk drawn over the rows
/// before `row` of the chunk and, in row `row`, the columns before `col`:
/// only whole display rows (`rows` of them, `width` pixels wide) are drawn
/// on, and bytes past them are kept.
pub open spec fn sim_drawn(old: Seq<u8>, new: Seq<u8>, c: MonoChunk, width: int, rows: int, row: int, col: int) -> bool {
    &&& new.len() == old.len()
    &&& forall|x: int, y: int| 0 <= x < width && 0 <= y < rows ==> #[trigger] new[y * width + x] == (
        if drawn_before(c, x, y, row, col) {
            chunk_value(c, x, y)
        } else {
            old[y * width + x]
        })
    &&& forall|i: int| rows * width <= i < old.len() ==> #[trigger] new[i] == old[i]
}

/// Pixels `(x, y)` and `(x2, y2)` of a `width`-wide buffer of `rows` rows
/// lie inside it, at the same place only if they are the same pixel.
proof fn lemma_pixel_index(x: int, y: int, x2: int, y2: int, width: int, rows: int)
    requires
        0 <= x < width,
        0 <= y < rows,
        0 <= x2 < width,
        0 <= y2 < rows,
    ensures
        0 <= y * width + x < rows * width,
        0 <= y2 * width + x2 < rows * width,
        y2 * width + x2 == y * width + x ==> x2 == x && y2 == y,
{
    assert(0 <= y * width + x < rows * width) by (nonlinear_arith)
        requires 0 <= x < width, 0 <= y < rows;
    assert(0 <= y2 * width + x2 < rows * width) by (nonlinear_arith)
        requires 0 <= x2 < width, 0 <= y2 < rows;
    assert(y2 * width + x2 == y * width + x ==> x2 == x && y2 == y) by (nonlinear_arith)
        requires 0 <= x2 < width, 0 <= x < width, 0 <= y, 0 <= y2;
}

/// Draws a monochrome chunk onto a frame buffer `width` pixels wide and
/// `height` high: each masked chunk pixel's byte is copied. Only whole rows
/// of the buffer are drawn on, and a chunk starting off the display draws
/// nothing.
pub fn draw_to(dest: &mut Vec<u8>, src: &MonoChunk, width: u32, height: u32)
    requires
        src.start_y < height && src.start_x < width ==> src.width > 0,
    ensures
        src.start_y >= height || src.start_x >= width ==> final(dest)@ == old(dest)@,
        src.start_y < height && src.start_x < width ==> sim_drawn(
            old(dest)@,
            final(dest)@,
            *src,
            width as int,
            old(dest)@.len() as int / (width as int),
            src.data@.len() as int,
            0,
        ),
{
    if src.start_y >= height {
        return;
    }
    if src.start_x >= width {
        return;
    }
    let ghost d0 = dest@;
    let wd = width as usize;
    let rows = dest.len() / wd;
    proof {
        assert(rows * wd <= d0.len()) by (nonlinear_arith)
            requires rows == d0.len() as int / (wd as int), wd > 0;
    }
    let w = src.width as usize;
    let sx = src.start_x as usize;
    let sy = src.start_y as usize;
    let dlen = src.data.len();
    let mlen = src.mask.len();
    let mut r: usize = 0;
    let mut base: usize = 0;
    let mut more: bool = dlen > 0 && mlen > 0 && sy < rows;
    while more
        invariant
            wd == width,
            wd > 0,
            w == src.width,
            w > 0,
            sx == src.start_x,
            sy == src.start_y,
            sx < wd,
            dlen == src.data@.len(),
            mlen == src.mask@.len(),
            rows == d0.len() as int / (wd as int),
            rows * wd <= d0.len(),
            more ==> base == r * w && base < dlen && base < mlen && sy + r < rows,
            !more ==> r * w >= dlen || r * w >= mlen || sy + r >= rows,
            r <= dlen,
            sim_drawn(d0, dest@, *src, wd as int, rows as int, r as int, 0),
        decreases dlen - r,
    {
        proof {
            assert(r <= base) by (nonlinear_arith)
                requires base == r * w, w > 0;
        }
        let y = sy + r;
        let mut col: usize = 0;
        while col < w && col < dlen - base && col < mlen - base && sx + col < wd
            invariant
                wd == width,
                wd > 0,
                w == src.width,
                sx == src.start_x,
                sy == src.start_y,
                dlen == src.data@.len(),
                mlen == src.mask@.len(),
                rows == d0.len() as int / (wd as int),
                rows * wd <= d0.len(),
                base == r * w,
                base < dlen,
                base < mlen,
                r <= base,
                y == sy + r,
                y < rows,
                col <= w,
                sx + col <= wd,
                sim_drawn(d0, dest@, *src, wd as int, rows as int, r as int, col as int),
            decreases w - col,
        {
            let i = base + col;
            let x = sx + col;
            let dl = dest.len();
            proof {
                lemma_pixel_index(x as int, y as int, x as int, y as int, wd as int, rows as int);
                assert(y * wd <= y * wd + x < dl);
            }
            let di = y * wd + x;
            let ghost da = dest@;
            if src.mask[i] != 0 {
                let v = src.data[i];
                dest.set(di, v);
                proof {
                    assert(chunk_has(*src, col as int, r as int));
                    assert forall|px: int, py: int| 0 <= px < wd && 0 <= py < rows implies #[trigger] dest@[py * wd + px] == (
                        if drawn_before(*src, px, py, r as int, col + 1) {
                            chunk_value(*src, px, py)
                        } else {
                            d0[py * wd + px]
                        }) by {
                        lemma_pixel_index(x as int, y as int, px, py, wd as int, rows as int);
                        assert(da[py * wd + px] == (if drawn_before(*src, px, py, r as int, col as int) {
                            chunk_value(*src, px, py)
                        } else {
                            d0[py * wd + px]
                        }));
                    }
                }
            } else {
                proof {
                    assert forall|px: int, py: int| 0 <= px < wd && 0 <= py < rows implies drawn_before(*src, px, py, r as int, col + 1)
                        == drawn_before(*src, px, py, r as int, col as int) by {}
                }
            }
            col += 1;
        }
        proof {
            assert(base + w == (r + 1) * w) by (nonlinear_arith)
                requires base == r * w;
            assert forall|px: int, py: int| 0 <= px < wd && 0 <= py < rows implies drawn_before(*src, px, py, r as int, col as int)
                == drawn_before(*src, px, py, r + 1, 0) by {
                if covers(*src, px, py) && py - src.start_y == r && px - src.start_x >= col {
                    let cx = px - src.start_x;
                    assert(chunk_has(*src, cx, r as int));
                    assert(cx < w);
                    assert(base + cx < dlen && base + cx < mlen);
                    assert(px < wd);
                }
            }
        }
        if w < dlen - base && w < mlen - base && y + 1 < rows {
            base = base + w;
        } else {
            more = false;
        }
        r = r + 1;
    }
    proof {
        let n = dlen as int;
        assert forall|px: int, py: int| 0 <= px < wd && 0 <= py < rows implies drawn_before(*src, px, py, r as int, 0)
            == drawn_before(*src, px, py, n, 0) by {
            let cy = py - src.start_y;
            if covers(*src, px, py) && cy >= r {
                if r * w >= dlen || r * w >= mlen {
                    crate::sharp_display::lemma_rows_past_end(*src, r as int, px - src.start_x, cy);
                }
            }
        }
    }
}

/// Microseconds between two turns of the simulator's render loop (20 Hz).
pub const RENDER_PERIOD_US: u64 = 50_000;

/// The render loop's state: turns since the window was last updated, and
/// whether it has been updated at all (window events are only polled after
/// the first update).
#[derive(Clone, Copy, Debug, PartialEq, Eq, Structural)]
pub struct RenderState {
    pub idle_ticks: u32,
    pub first_done: bool,
}

/// One turn of the render loop: the window is updated (`true`) when
/// something was drawn, or after four idle turns.
pub open spec fn render_step(s: RenderState, dirty: bool) -> (RenderState, bool) {
    if dirty || s.idle_ticks >= 4 {
        (RenderState { idle_ticks: 0, first_done: true }, true)
    } else {
        (RenderState { idle_ticks: (s.idle_ticks + 1) as u32, ..s }, false)
    }
}

impl RenderState {
    /// Idle turns never pile up past the redraw point.
    pub open spec fn wf(&self) -> bool {
        self.idle_ticks <= 4
    }

    /// The state before the first turn.
    pub fn new() -> (r: RenderState)
        ensures
            r.wf(),
            r == (RenderState { idle_ticks: 0, first_done: false }),
    {
        RenderState { idle_ticks: 0, first_done: false }
    }

    /// Whether this turn polls the window's events.
    pub fn polls_events(&self) -> (r: bool)
        ensures
            r == self.first_done,
    {
        self.first_done
    }

    /// One turn of the render loop; returns whether to update the window.
    pub fn tick(&mut self, dirty: bool) -> (redraw: bool)
        requires
            old(self).wf(),
        ensures
            final(self).wf(),
            (*final(self), redraw) == render_step(*old(self), dirty),
    {
        if dirty || self.idle_ticks >= 4 {
            self.idle_ticks = 0;
            self.first_done = true;
            true
        } else {
            self.idle_ticks = self.idle_ticks + 1;
            false
        }
    }
}

/// With nothing drawn, the window is updated on every fifth turn: four
/// turns without an update, then one with.
pub proof fn lemma_idle_redraw_every_fifth(s: RenderState)
    requires
        s.idle_ticks == 0,
    ensures
        ({
            let (s1, r1) = render_step(s, false);
            let (s2, r2) = render_step(s1, false);
            let (s3, r3) = render_step(s2, false);
            let (s4, r4) = render_step(s3, false);
            let (s5, r5) = render_step(s4, false);
            !r1 && !r2 && !r3 && !r4 && r5 && s5.idle_ticks == 0
        }),
{
}

} // verus!
