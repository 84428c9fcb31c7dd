use mnemos_platforms::lichee_display::{self, DisplayInfo, FrameError, LINE_BUFFER_BYTES};
use mnemos_platforms::sharp_display::{FullFrame, MonoChunk, FRAME_BYTES, VCOM_MASK, WRITE_LINE};
use mnemos_platforms::sim_display;

fn pixel(frame: &[u8], x: usize, y: usize) -> bool {
    (frame[y * 50 + x / 8] >> (x % 8)) & 1 == 1
}

#[test]
fn set_px_lights_one_bit_and_dirties_its_line() {
    let mut f = FullFrame::new();
    for d in f.dirty_line.iter_mut() {
        *d = false;
    }
    f.set_px(10, 3, 200);
    assert!(pixel(&f.frame, 10, 3));
    assert_eq!(f.frame[3 * 50 + 1], 0b0000_0100);
    assert!(f.dirty_line[3]);
    assert_eq!(f.dirty_line.iter().filter(|d| **d).count(), 1);
    // a luma of exactly 128 is dark
    f.set_px(10, 3, 128);
    assert!(!pixel(&f.frame, 10, 3));
    // off the display: ignored
    f.set_px(400, 3, 255);
    f.set_px(3, 241, 255);
    assert!(f.frame.iter().all(|b| *b == 0));
}

#[test]
fn draw_mono_chunk_thresholds_and_masks() {
    let mut f = FullFrame::new();
    let chunk = MonoChunk {
        start_x: 8,
        start_y: 2,
        width: 2,
        data: vec![255, 0, 200, 100],
        mask: vec![1, 1, 0, 1],
    };
    f.draw_to(&chunk, 400, 240);
    assert!(pixel(&f.frame, 8, 2));
    assert!(!pixel(&f.frame, 9, 2));
    assert!(!pixel(&f.frame, 8, 3)); // masked out
    assert!(!pixel(&f.frame, 9, 3)); // 100 is below 128
    // a chunk starting off the display draws nothing
    let mut g = FullFrame::new();
    let off = MonoChunk { start_x: 400, start_y: 0, width: 1, data: vec![255], mask: vec![1] };
    g.draw_to(&off, 400, 240);
    assert!(g.frame.iter().all(|b| *b == 0));
}

#[test]
fn render_sends_dirty_lines_then_toggles() {
    let mut f = FullFrame::new();
    for d in f.dirty_line.iter_mut() {
        *d = false;
    }
    f.set_px(0, 5, 255);
    let (msg, drawn) = f.render(true);
    assert_eq!(drawn, 1);
    assert_eq!(msg.len(), 1 + 52 + 1);
    assert_eq!(msg[0], WRITE_LINE | VCOM_MASK);
    assert_eq!(msg[1], 6); // lines are numbered from 1
    assert_eq!(msg[2], 1);
    assert_eq!(msg[52], 0);
    assert_eq!(msg[53], 0);
    assert!(f.dirty_line.iter().all(|d| !*d));
    // nothing dirty: only toggle VCOM
    let (msg, drawn) = f.render(false);
    assert_eq!(drawn, 0);
    assert_eq!(msg, vec![0, 0]);
}

#[test]
fn render_fresh_frame_sends_every_line() {
    let mut f = FullFrame::new();
    let (msg, drawn) = f.render(false);
    assert_eq!(drawn, 240);
    assert_eq!(msg.len(), FRAME_BYTES);
    assert_eq!(msg[0], WRITE_LINE);
    assert_eq!(msg[1 + 52 * 239], 240);
}

#[test]
fn sim_draw_copies_masked_bytes() {
    let mut fb = vec![7u8; 4 * 3];
    let chunk = MonoChunk { start_x: 2, start_y: 1, width: 3, data: vec![1, 2, 3, 4, 5, 6], mask: vec![1, 0, 1, 1, 1, 1] };
    sim_display::draw_to(&mut fb, &chunk, 4, 3);
    assert_eq!(fb, vec![7, 7, 7, 7, 7, 7, 1, 7, 7, 7, 4, 5]);
}

#[test]
fn lichee_line_buffer_layout() {
    let mut f = lichee_display::FullFrame::new();
    f.set_px(9, 1, 255);
    let mut buf = lichee_display::new_line_buffer();
    lichee_display::render_lines(&mut buf, &f, true);
    assert_eq!(buf.len(), LINE_BUFFER_BYTES);
    assert_eq!(buf[0], 3);
    assert_eq!(buf[1], 1);
    assert_eq!(buf[53], 2);
    assert_eq!(buf[54 + 1], 0b10);
    assert_eq!(buf[52], 0);
    assert_eq!(buf[LINE_BUFFER_BYTES - 1], 0);
    lichee_display::render_lines(&mut buf, &f, false);
    assert_eq!(buf[0], 1);
}

#[test]
fn frames_are_handed_out_and_taken_back() {
    let mut info = DisplayInfo::new(2);
    let a = info.new_frame(0, 0, 4, 2).ok().unwrap();
    assert_eq!(a.frame_id, 0);
    assert_eq!(a.bytes, vec![0; 8]);
    let b = info.new_frame(1, 1, 1, 1).ok().unwrap();
    assert_eq!(b.frame_id, 1);
    assert_eq!(info.new_frame(0, 0, 1, 1).err(), Some(FrameError::NoFrameAvailable));
    assert_eq!(info.frame_idx, 3);
    assert_eq!(info.remove_frame(0), Ok(()));
    assert_eq!(info.remove_frame(0), Err(FrameError::NoSuchFrame));
    let c = info.new_frame(0, 0, 1, 1).ok().unwrap();
    assert_eq!(c.frame_id, 3);
}
