//! The display driver of the Lichee RV dock: a one-bit frame buffer for the
//! Sharp memory display, the frame chunks handed out to clients, and the
//! line buffer that is sent to the display in full.
use crate::sharp_display::{lit, pixel, set_frame_px, HEIGHT, WIDTH, WIDTH_BYTES};
use vstd::prelude::*;

verus! {

/// Bytes of the line buffer: a command byte, 240 lines of 52 bytes, and a
/// trailing dummy byte.
pub const LINE_BUFFER_BYTES: usize = 12482;

/// One entire frame, one bit per pixel (bit `x % 8` of byte `y * 50 + x / 8`).
pub struct FullFrame {
    pub frame: Vec<u8>,
}

impl FullFrame {
    /// The frame buffer holds one full frame.
    pub open spec fn wf(&self) -> bool {
        self.frame@.len() == HEIGHT * WIDTH_BYTES
    }

    /// A blank frame.
    pub fn new() -> (r: FullFrame)
        ensures
            r.wf(),
            forall|i: int| 0 <= i < r.frame@.len() ==> r.frame@[i] == 0,
    {
        let mut frame: Vec<u8> = Vec::new();
        let mut i: usize = 0;
        while i < HEIGHT * WIDTH_BYTES
            invariant
                i <= HEIGHT * WIDTH_BYTES,
                frame@.len() == i,
                forall|j: int| 0 <= j < i ==> frame@[j] == 0,
            decreases HEIGHT * WIDTH_BYTES - i,
        {
            frame.push(0);
            i += 1;
        }
        FullFrame { frame }
    }

    /// Sets pixel `(x, y)` to a luma value: lit above 128. Pixels right of
    /// the display or below line 240 are ignored.
    pub fn set_px(&mut self, x: usize, y: usize, luma: u8)
        requires
            old(self).wf(),
            !(x < WIDTH && y == HEIGHT),
        ensures
            final(self).wf(),
            x >= WIDTH || y > HEIGHT ==> final(self).frame@ == old(self).frame@,
            x < WIDTH && y < HEIGHT ==> {
                &&& pixel(final(self).frame@, x as int, y as int) == lit(luma)
                &&& forall|px: int, py: int|
                    0 <= px < WIDTH && 0 <= py < HEIGHT && (px != x || py != y) ==> pixel(
                        final(self).frame@,
                        px,
                        py,
                    ) == pixel(old(self).frame@, px, py)
            },
    {
        if x >= WIDTH || y > HEIGHT {
            return;
        }
        set_frame_px(&mut self.frame, x, y, luma);
    }
}

/// The command byte sent with a full frame: write lines, with the VCOM bit.
pub open spec fn frame_command(vcom: bool) -> u8 {
    if vcom { 3 } else { 1 }
}

/// Where line `l` starts in the line buffer.
pub open spec fn line_start(l: int) -> int {
    1 + 52 * l
}

/// The line buffer after rendering `frame` into `old`: the command byte,
/// then for every line its 1-based number and its 50 bytes of pixels; the
/// dummy bytes keep what they held.
pub open spec fn rendered(old: Seq<u8>, new: Seq<u8>, frame: Seq<u8>, vcom: bool) -> bool {
    &&& new.len() == old.len()
    &&& new[0] == frame_command(vcom)
    &&& forall|l: int| 0 <= l < HEIGHT ==> #[trigger] new[line_start(l)] == (l + 1) as u8
    &&& forall|l: int, k: int| 0 <= l < HEIGHT && 0 <= k < 50 ==> #[trigger] new[line_start(l) + 1 + k] == frame[l * 50 + k]
    &&& forall|l: int| 0 <= l < HEIGHT ==> #[trigger] new[line_start(l) + 51] == old[line_start(l) + 51]
    &&& new[LINE_BUFFER_BYTES - 1] == old[LINE_BUFFER_BYTES - 1]
}

/// A zeroed line buffer.
pub fn new_line_buffer() -> (r: Vec<u8>)
    ensures
        r@.len() == LINE_BUFFER_BYTES,
        forall|i: int| 0 <= i < LINE_BUFFER_BYTES ==> r@[i] == 0,
{
    let mut v: Vec<u8> = Vec::new();
    let mut i: usize = 0;
    while i < LINE_BUFFER_BYTES
        invariant
            i <= LINE_BUFFER_BYTES,
            v@.len() == i,
            forall|j: int| 0 <= j < i ==> v@[j] == 0,
        decreases LINE_BUFFER_BYTES - i,
    {
        v.push(0);
        i += 1;
    }
    v
}

/// Renders the whole frame into the line buffer that is sent to the display.
pub fn render_lines(buf: &mut Vec<u8>, frame: &FullFrame, vcom: bool)
    requires
        old(buf)@.len() == LINE_BUFFER_BYTES,
        frame.wf(),
    ensures
        rendered(old(buf)@, final(buf)@, frame.frame@, vcom),
{
    let vc: u8 = 0x01 | if vcom { 0x02 } else { 0x00 };
    buf.set(0, 0x01 | vc);
    assert((0x01u8 | (0x01u8 | 0x02u8)) == 3u8 && (0x01u8 | (0x01u8 | 0x00u8)) == 1u8) by (bit_vector);
    let ghost b0 = old(buf)@;
    let mut line: usize = 0;
    while line < HEIGHT
        invariant
            frame.wf(),
            b0.len() == LINE_BUFFER_BYTES,
            buf@.len() == LINE_BUFFER_BYTES,
            line <= HEIGHT,
            buf@[0] == frame_command(vcom),
            forall|l: int| 0 <= l < line ==> #[trigger] buf@[line_start(l)] == (l + 1) as u8,
            forall|l: int, k: int| 0 <= l < line && 0 <= k < 50 ==> #[trigger] buf@[line_start(l) + 1 + k] == frame.frame@[l * 50 + k],
            forall|i: int| line_start(line as int) <= i < LINE_BUFFER_BYTES ==> #[trigger] buf@[i] == b0[i],
            forall|l: int| 0 <= l < line ==> #[trigger] buf@[line_start(l) + 51] == b0[line_start(l) + 51],
        decreases HEIGHT - line,
    {
        let start = 1 + 52 * line;
        buf.set(start, (line as u8) + 1);
        let mut k: usize = 0;
        while k < WIDTH_BYTES
            invariant
                frame.wf(),
                b0.len() == LINE_BUFFER_BYTES,
                buf@.len() == LINE_BUFFER_BYTES,
                line < HEIGHT,
                start == line_start(line as int),
                k <= WIDTH_BYTES,
                buf@[0] == frame_command(vcom),
                buf@[start as int] == (line + 1) as u8,
                forall|l: int| 0 <= l < line ==> #[trigger] buf@[line_start(l)] == (l + 1) as u8,
                forall|l: int, j: int| 0 <= l < line && 0 <= j < 50 ==> #[trigger] buf@[line_start(l) + 1 + j] == frame.frame@[l * 50 + j],
                forall|j: int| 0 <= j < k ==> #[trigger] buf@[start + 1 + j] == frame.frame@[line * 50 + j],
                forall|i: int| start + 1 + k <= i < LINE_BUFFER_BYTES ==> #[trigger] buf@[i] == b0[i],
                forall|l: int| 0 <= l < line ==> #[trigger] buf@[line_start(l) + 51] == b0[line_start(l) + 51],
            decreases WIDTH_BYTES - k,
        {
            let v = frame.frame[line * WIDTH_BYTES + k];
            buf.set(start + 1 + k, v);
            k += 1;
        }
        line += 1;
    }
}

/// Why a frame request was refused.
#[derive(Clone, Copy, Debug, PartialEq, Eq, Structural)]
pub enum FrameError {
    /// Every frame chunk is handed out already.
    NoFrameAvailable,
    /// No frame chunk with that id is handed out.
    NoSuchFrame,
    /// The display is registered already.
    DisplayAlreadyExists,
}

/// A frame chunk handed out to a client: a `width` by `height` grey image
/// to be drawn at `(start_x, start_y)`.
pub struct FrameChunk {
    pub frame_id: u16,
    pub bytes: Vec<u8>,
    pub start_x: i32,
    pub start_y: i32,
    pub width: u32,
    pub height: u32,
}

/// The frame chunks handed out: the next id, and the ids out (at most
/// `max_frames`).
pub struct DisplayInfo {
    pub frame_idx: u16,
    pub frames: Vec<u16>,
    pub max_frames: usize,
}

impl DisplayInfo {
    /// No more chunks are out than allowed.
    pub open spec fn wf(&self) -> bool {
        self.frames@.len() <= self.max_frames
    }

    /// No chunk handed out yet; at most `max_frames` at once.
    pub fn new(max_frames: usize) -> (r: DisplayInfo)
        ensures
            r.wf(),
            r.frame_idx == 0,
            r.frames@ == Seq::<u16>::empty(),
            r.max_frames == max_frames,
    {
        DisplayInfo { frame_idx: 0, frames: Vec::new(), max_frames }
    }

    /// Hands out a zeroed chunk for a `width` by `height` area at
    /// `(start_x, start_y)`, under the next id. The id counter advances
    /// (wrapping) even when no chunk is free.
    pub fn new_frame(&mut self, start_x: i32, start_y: i32, width: u32, height: u32) -> (r: Result<FrameChunk, FrameError>)
        requires
            old(self).wf(),
            width * height <= u32::MAX,
        ensures
            final(self).wf(),
            final(self).max_frames == old(self).max_frames,
            final(self).frame_idx == (if old(self).frame_idx == u16::MAX { 0 } else { old(self).frame_idx + 1 }),
            old(self).frames@.len() < old(self).max_frames ==> {
                &&& final(self).frames@ == old(self).frames@.push(old(self).frame_idx)
                &&& r is Ok
                &&& r->Ok_0.frame_id == old(self).frame_idx
                &&& r->Ok_0.start_x == start_x && r->Ok_0.start_y == start_y
                &&& r->Ok_0.width == width && r->Ok_0.height == height
                &&& r->Ok_0.bytes@.len() == width * height
                &&& forall|i: int| 0 <= i < width * height ==> r->Ok_0.bytes@[i] == 0
            },
            old(self).frames@.len() >= old(self).max_frames ==> final(self).frames@ == old(self).frames@
                && r == Err::<FrameChunk, FrameError>(FrameError::NoFrameAvailable),
    {
        let fidx = self.frame_idx;
        self.frame_idx = self.frame_idx.wrapping_add(1);
        if self.frames.len() >= self.max_frames {
            return Err(FrameError::NoFrameAvailable);
        }
        self.frames.push(fidx);
        let size = (width * height) as usize;
        let mut bytes: Vec<u8> = Vec::new();
        let mut i: usize = 0;
        while i < size
            invariant
                i <= size,
                size == width * height,
                bytes@.len() == i,
                forall|j: int| 0 <= j < i ==> bytes@[j] == 0,
            decreases size - i,
        {
            bytes.push(0);
            i += 1;
        }
        Ok(FrameChunk { frame_id: fidx, bytes, start_x, start_y, width, height })
    }

    /// Takes back every chunk with id `frame_id`; fails if none is out.
    pub fn remove_frame(&mut self, frame_id: u16) -> (r: Result<(), FrameError>)
        requires
            old(self).wf(),
        ensures
            final(self).wf(),
            final(self).max_frames == old(self).max_frames,
            final(self).frame_idx == old(self).frame_idx,
            final(self).frames@ == old(self).frames@.filter(|f: u16| f != frame_id),
            r is Ok <==> old(self).frames@.contains(frame_id),
            r is Err ==> r == Err::<(), FrameError>(FrameError::NoSuchFrame),
    {
        let ghost s = self.frames@;
        let mut kept: Vec<u16> = Vec::new();
        let mut found = false;
        let mut i: usize = 0;
        while i < self.frames.len()
            invariant
                self.frames@ == s,
                i <= s.len(),
                kept@ == s.take(i as int).filter(|f: u16| f != frame_id),
                found == s.take(i as int).contains(frame_id),
            decreases s.len() - i,
        {
            let f = self.frames[i];
            proof {
                assert(s.take(i + 1) == s.take(i as int).push(f));
                s.take(i as int).lemma_filter_push(f, |f: u16| f != frame_id);
                let t0 = s.take(i as int);
                let t1 = s.take(i + 1);
                if t0.contains(frame_id) {
                    let j = choose|j: int| 0 <= j < t0.len() && t0[j] == frame_id;
                    assert(t1[j] == frame_id);
                }
                if f == frame_id {
                    assert(t1[i as int] == frame_id);
                }
                if t1.contains(frame_id) && f != frame_id {
                    let j = choose|j: int| 0 <= j < t1.len() && t1[j] == frame_id;
                    assert(t0[j] == frame_id);
                }
            }
            if f == frame_id {
                found = true;
            } else {
                kept.push(f);
            }
            i += 1;
        }
        proof {
            assert(s.take(s.len() as int) == s);
            s.lemma_filter_len(|f: u16| f != frame_id);
        }
        self.frames = kept;
        if found {
            Ok(())
        } else {
            Err(FrameError::NoSuchFrame)
        }
    }
}

/// A chunk handed out can be taken back, and taking it back leaves the
/// chunks out before it as they were, less those with the same id.
pub proof fn lemma_new_then_remove(frames: Seq<u16>, id: u16)
    ensures
        frames.push(id).contains(id),
        frames.push(id).filter(|f: u16| f != id) == frames.filter(|f: u16| f != id),
{
    assert(frames.push(id)[frames.len() as int] == id);
    frames.lemma_filter_push(id, |f: u16| f != id);
}

} // verus!
