use funcos::colour::{Colour, BLACK, RED, WHITE};
use funcos::linalg::vec::Vec2;
use funcos::screen_font::ScreenFont;
use funcos::terminal_video::TerminalVideoBuffer;
use funcos::video::VideoBuffer;

const SIZE: usize = 16;

/// An 8×16 font whose glyph `g` has row `r` equal to `g ^ r`.
fn font() -> ScreenFont {
    let mut v = vec![0x36, 0x04, 0x00, SIZE as u8];
    for g in 0..256usize {
        for r in 0..SIZE {
            v.push((g ^ r) as u8);
        }
    }
    ScreenFont::from_data(Box::leak(v.into_boxed_slice())).unwrap()
}

/// A 64×32 surface with a 256-byte pitch.
fn terminal() -> TerminalVideoBuffer {
    let video = VideoBuffer::new(vec![0; 64 * 32], 64, 32, 256).unwrap();
    TerminalVideoBuffer::new(video, font(), font()).unwrap()
}

/// Whether cell `(cx, cy)` shows glyph `c` in the given colours.
fn shows(t: &TerminalVideoBuffer, c: u8, cx: usize, cy: usize, fg: u32, bg: u32) -> bool {
    let m = t.video_buffer().memory();
    (0..SIZE).all(|r| {
        let bits = c ^ r as u8;
        (0..8).all(|x| {
            let want = if bits & (0x80 >> x) != 0 { fg } else { bg };
            m[(cy * SIZE + r) * 64 + cx * 8 + x] == want
        })
    })
}

/// Whether every pixel of cell `(cx, cy)` holds `value`.
fn filled(t: &TerminalVideoBuffer, cx: usize, cy: usize, value: u32) -> bool {
    let m = t.video_buffer().memory();
    (0..SIZE).all(|r| (0..8).all(|x| m[(cy * SIZE + r) * 64 + cx * 8 + x] == value))
}

fn blank(t: &TerminalVideoBuffer, cx: usize, cy: usize) -> bool {
    filled(t, cx, cy, 0)
}

#[test]
fn grid_dimensions() {
    let t = terminal();
    assert_eq!(t.width(), 8);
    assert_eq!(t.height(), 2);
    assert_eq!(t.cursor(), Vec2::new(0, 0));
    assert_eq!(t.foreground().value(), WHITE);
    assert_eq!(t.background().value(), BLACK);
}

#[test]
fn construction_needs_one_cell() {
    let narrow = VideoBuffer::new(vec![0; 8 * 32], 7, 32, 32).unwrap();
    assert!(TerminalVideoBuffer::new(narrow, font(), font()).is_none());
    let short = VideoBuffer::new(vec![0; 64 * 15], 64, 15, 256).unwrap();
    assert!(TerminalVideoBuffer::new(short, font(), font()).is_none());
    let mut small = vec![0x36, 0x04, 0x00, 8];
    small.extend(std::iter::repeat(0u8).take(256 * 8));
    let small = ScreenFont::from_data(Box::leak(small.into_boxed_slice())).unwrap();
    let video = VideoBuffer::new(vec![0; 64 * 32], 64, 32, 256).unwrap();
    assert!(TerminalVideoBuffer::new(video, font(), small).is_none());
}

#[test]
fn end_to_end_text() {
    let mut t = terminal();
    t.put_char(b'H');
    assert!(shows(&t, b'H', 0, 0, WHITE, BLACK));
    assert_eq!(t.cursor(), Vec2::new(1, 0));
    t.put_char(b'i');
    assert!(shows(&t, b'i', 1, 0, WHITE, BLACK));
    assert_eq!(t.cursor(), Vec2::new(2, 0));
    t.put_char(b'\n');
    assert_eq!(t.cursor(), Vec2::new(0, 1));
    t.put_char(b'\t');
    assert_eq!(t.cursor(), Vec2::new(4, 1));
    t.put_char(b'!');
    assert!(shows(&t, b'!', 4, 1, WHITE, BLACK));
    assert_eq!(t.cursor(), Vec2::new(5, 1));
    assert!(shows(&t, b'H', 0, 0, WHITE, BLACK));
    for cx in 0..4 {
        assert!(blank(&t, cx, 1));
    }
}

#[test]
fn end_to_end_as_one_string() {
    let mut a = terminal();
    a.put_string(b"Hi\n\t!");
    let mut b = terminal();
    for c in b"Hi\n\t!" {
        b.put_char(*c);
    }
    assert_eq!(a.cursor(), Vec2::new(5, 1));
    assert_eq!(a.video_buffer().memory(), b.video_buffer().memory());
    let mut w = terminal();
    w.write_str("Hi\n\t!");
    assert_eq!(w.video_buffer().memory(), a.video_buffer().memory());
}

#[test]
fn set_cursor_saturates() {
    let mut t = terminal();
    t.set_cursor(Vec2::new(t.width() + 5, 0));
    assert_eq!(t.cursor(), Vec2::new(7, 0));
    t.set_cursor(Vec2::new(3, 99));
    assert_eq!(t.cursor(), Vec2::new(3, 1));
    t.set_cursor(Vec2::new(usize::MAX, usize::MAX));
    assert_eq!(t.cursor(), Vec2::new(7, 1));
    t.set_cursor(Vec2::new(2, 0));
    assert_eq!(t.cursor(), Vec2::new(2, 0));
}

#[test]
fn tab_goes_to_next_stop() {
    let mut t = terminal();
    t.set_cursor(Vec2::new(5, 0));
    t.put_char(b'\t');
    // column 8 lies past the last of the 8 columns: the tab wraps to the next line
    assert_eq!(t.cursor(), Vec2::new(0, 1));
    let mut u = terminal();
    u.set_cursor(Vec2::new(0, 0));
    u.put_char(b'\t');
    assert_eq!(u.cursor(), Vec2::new(4, 0));
    u.put_char(b'\t');
    assert_eq!(u.cursor(), Vec2::new(0, 1));
    let mut v = terminal();
    v.set_cursor(Vec2::new(1, 0));
    v.put_char(b'\t');
    assert_eq!(v.cursor(), Vec2::new(4, 0));
    assert!(blank(&v, 1, 0) && blank(&v, 2, 0) && blank(&v, 3, 0));
}

#[test]
fn tab_on_a_wide_grid() {
    let video = VideoBuffer::new(vec![0; 128 * 16], 128, 16, 512).unwrap();
    let mut t = TerminalVideoBuffer::new(video, font(), font()).unwrap();
    t.set_cursor(Vec2::new(5, 0));
    t.put_char(b'\t');
    assert_eq!(t.cursor(), Vec2::new(8, 0));
    t.put_char(b'\t');
    assert_eq!(t.cursor(), Vec2::new(12, 0));
}

#[test]
fn advance_wraps_at_line_end() {
    let mut t = terminal();
    t.put_string(b"abcdefgh");
    assert_eq!(t.cursor(), Vec2::new(0, 1));
    assert!(shows(&t, b'h', 7, 0, WHITE, BLACK));
}

#[test]
fn last_line_scrolls_up() {
    let mut t = terminal();
    t.put_string(b"A\nB");
    assert!(shows(&t, b'B', 0, 1, WHITE, BLACK));
    t.put_newline();
    assert_eq!(t.cursor(), Vec2::new(0, 1));
    assert!(shows(&t, b'B', 0, 0, WHITE, BLACK));
    // the new last line is cleared to the background colour
    for cx in 0..8 {
        assert!(filled(&t, cx, 1, BLACK));
    }
    t.put_char(b'C');
    assert!(shows(&t, b'C', 0, 1, WHITE, BLACK));
    assert_eq!(t.cursor(), Vec2::new(1, 1));
}

#[test]
fn cursor_stays_on_grid() {
    let mut t = terminal();
    let text: Vec<u8> = (0..500u32).map(|i| [b'x', b'\n', b'\t', b'7'][(i * 7 % 4) as usize]).collect();
    for chunk in text.chunks(13) {
        t.put_string(chunk);
        assert!(t.cursor().x < t.width() && t.cursor().y < t.height());
    }
    t.set_cursor(Vec2::new(100, 100));
    t.advance_cursor();
    assert!(t.cursor().x < t.width() && t.cursor().y < t.height());
}

#[test]
fn put_char_at_ignores_cursor() {
    let mut t = terminal();
    t.put_char_at(b'Z', Vec2::new(7, 1));
    assert!(shows(&t, b'Z', 7, 1, WHITE, BLACK));
    assert_eq!(t.cursor(), Vec2::new(0, 0));
    t.put_char_raw(b'\n');
    assert!(shows(&t, b'\n', 0, 0, WHITE, BLACK));
    assert_eq!(t.cursor(), Vec2::new(1, 0));
}

#[test]
fn colours_apply_to_later_glyphs() {
    let mut t = terminal();
    t.put_char(b'a');
    t.set_foreground(Colour::new(RED));
    t.set_background(Colour::new(0xff00_0040));
    t.put_char(b'b');
    assert!(shows(&t, b'a', 0, 0, WHITE, BLACK));
    assert!(shows(&t, b'b', 1, 0, RED, 0xff00_0040));
    t.clear_screen();
    assert!(t.video_buffer().memory().iter().all(|&w| w == 0xff00_0040));
    assert_eq!(t.cursor(), Vec2::new(2, 0));
}

#[test]
fn second_install_fails() {
    let mut slot = None;
    assert!(terminal().make_default(&mut slot).is_ok());
    assert!(slot.is_some());
    let mut other = terminal();
    other.put_char(b'q');
    let back = other.make_default(&mut slot).unwrap_err();
    assert_eq!(back.cursor(), Vec2::new(1, 0));
    assert_eq!(slot.as_ref().unwrap().cursor(), Vec2::new(0, 0));
}
