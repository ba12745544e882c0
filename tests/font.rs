use funcos::screen_font::{FontError, FontMode, ScreenFont};

fn leak(v: Vec<u8>) -> &'static [u8] {
    Box::leak(v.into_boxed_slice())
}

fn font_bytes(mode: u8, size: u8, glyphs: usize) -> Vec<u8> {
    let mut v = vec![0x36, 0x04, mode, size];
    for g in 0..glyphs {
        for r in 0..size as usize {
            v.push((g as u8) ^ (r as u8));
        }
    }
    v
}

#[test]
fn header_with_256_glyphs() {
    let font = ScreenFont::from_data(leak(font_bytes(0x00, 0x10, 256))).unwrap();
    let h = font.header();
    assert_eq!(h.character_size, 16);
    assert_eq!(h.glyph_count(), 256);
    assert_eq!(h.magic, [0x36, 0x04]);
    assert!(!h.font_mode.is_mode512());
    assert_eq!(font.font_data().len(), 256 * 16);
}

#[test]
fn mode_low_bit_gives_512_glyphs() {
    let font = ScreenFont::from_data(leak(font_bytes(0x01, 0x10, 512))).unwrap();
    assert_eq!(font.header().character_size, 16);
    assert_eq!(font.header().glyph_count(), 512);
    assert!(font.header().font_mode.is_mode512());
}

#[test]
fn other_mode_bits_keep_256_glyphs() {
    let font = ScreenFont::from_data(leak(font_bytes(0x06, 14, 256))).unwrap();
    assert_eq!(font.header().glyph_count(), 256);
    assert!(font.header().font_mode.has_unicode_table());
    assert_eq!(FontMode::from_bits(0x06).bits(), 0x06);
}

#[test]
fn wrong_magic_is_refused() {
    let mut v = font_bytes(0, 16, 256);
    v[0] = 0x37;
    assert_eq!(ScreenFont::from_data(leak(v)).err(), Some(FontError::BadMagic([0x37, 0x04])));
    let mut w = font_bytes(0, 16, 256);
    w[1] = 0x05;
    assert_eq!(ScreenFont::from_data(leak(w)).err(), Some(FontError::BadMagic([0x36, 0x05])));
}

#[test]
fn short_resource_is_refused() {
    assert_eq!(ScreenFont::from_data(leak(vec![0x36, 0x04, 0])).err(), Some(FontError::TooShort));
    assert_eq!(ScreenFont::from_data(leak(vec![])).err(), Some(FontError::TooShort));
}

#[test]
fn truncated_glyph_table_is_refused() {
    let mut v = font_bytes(0, 16, 256);
    v.pop();
    assert_eq!(ScreenFont::from_data(leak(v)).err(), Some(FontError::Truncated));
    assert_eq!(
        ScreenFont::from_data(leak(font_bytes(0x01, 16, 256))).err(),
        Some(FontError::Truncated)
    );
}

#[test]
fn glyph_rows_are_indexed_by_size() {
    let font = ScreenFont::from_data(leak(font_bytes(0, 8, 256))).unwrap();
    assert_eq!(font.glyph_row(0x41, 0), 0x41);
    assert_eq!(font.glyph_row(0x41, 3), 0x41 ^ 3);
    assert_eq!(font.glyph_row(255, 7), 255 ^ 7);
    assert_eq!(font.character_size(), 8);
}

#[test]
fn trailing_bytes_after_the_table_are_kept() {
    let mut v = font_bytes(0x02, 8, 256);
    v.extend_from_slice(&[1, 2, 3]);
    let font = ScreenFont::from_data(leak(v)).unwrap();
    assert_eq!(font.font_data().len(), 256 * 8 + 3);
}
