//! A text terminal drawn on a framebuffer with an 8-pixel-wide bitmap font.
//!
//! The terminal's observable state is its surface memory and its cursor, in
//! character cells. Each operation is specified as a step on that state; the
//! dimensions, fonts and colours stay as they are unless a setter changes them.

use vstd::arithmetic::div_mod::lemma_fundamental_div_mod;
use vstd::prelude::*;
use vstd::string::StringSliceAdditionalSpecFns;

use crate::colour::{Colour, BLACK, WHITE};
use crate::linalg::rect::Rect;
use crate::linalg::vec::Vec2;
use crate::screen_font::ScreenFont;
use crate::video::{box_filled, cleared, glyph_drawn, slid, VideoBuffer};

verus! {

/// Surface memory, cursor column, cursor row.
pub type TermState = (Seq<u32>, int, int);

/// `y` whole cells of height `cs` fit in `h` rows when `y < h / cs`.
proof fn lemma_cells_fit(y: int, cs: int, h: int)
    requires
        cs > 0,
        h >= 0,
        0 <= y < h / cs,
    ensures
        0 <= y * cs,
        y * cs + cs <= h,
        (h / cs) * cs <= h,
{
    lemma_fundamental_div_mod(h, cs);
    let q = h / cs;
    assert(q * cs == cs * q) by (nonlinear_arith);
    assert(0 <= y * cs && y * cs + cs <= q * cs) by (nonlinear_arith)
        requires
            0 <= y < q,
            cs > 0,
    ;
}

/// What the terminal's steps depend on: the surface geometry in pixels, the
/// font glyphs are drawn with, and the two colours.
pub struct TermConfig {
    pub width: usize,
    pub height: usize,
    pub pitch: usize,
    pub font: ScreenFont,
    pub fg: u32,
    pub bg: u32,
}

impl TermConfig {
    /// Words per surface row.
    pub open spec fn stride(&self) -> nat {
        self.pitch as nat / 4
    }

    /// Glyph height in pixels.
    pub open spec fn cs(&self) -> nat {
        self.font.character_size_spec()
    }

    /// Width in character cells.
    pub open spec fn width_chars(&self) -> nat {
        self.width as nat / 8
    }

    /// Height in character cells.
    pub open spec fn height_chars(&self) -> nat {
        self.height as nat / self.cs()
    }

    /// The cursor lies on the grid.
    pub open spec fn in_bounds(&self, st: TermState) -> bool {
        &&& 0 <= st.1 < self.width_chars()
        &&& 0 <= st.2 < self.height_chars()
    }

    /// At least one cell fits.
    pub open spec fn wf(&self) -> bool {
        &&& self.font.wf()
        &&& self.cs() > 0
        &&& self.width_chars() >= 1
        &&& self.height_chars() >= 1
    }

    /// The surface moved up one text line, with the last text line and any rows
    /// below it cleared to the background colour.
    pub open spec fn scrolled(&self, mem: Seq<u32>) -> Seq<u32> {
        box_filled(
            slid(mem, (self.cs() * self.stride()) as int),
            self.stride(),
            0,
            (self.height_chars() - 1) * self.cs(),
            self.width as int,
            self.height as int,
            self.bg,
        )
    }

    /// Start of the next line; on the last line the surface scrolls up and the
    /// cursor stays on the cleared last line.
    pub open spec fn newline_step(&self, st: TermState) -> TermState {
        if st.2 + 1 < self.height_chars() {
            (st.0, 0, st.2 + 1)
        } else {
            (self.scrolled(st.0), 0, st.2)
        }
    }

    /// One cell to the right; after the last column, a newline.
    pub open spec fn advance_step(&self, st: TermState) -> TermState {
        if st.1 + 1 == self.width_chars() {
            self.newline_step(st)
        } else {
            (st.0, st.1 + 1, st.2)
        }
    }

    /// `n` advances.
    pub open spec fn advance_n(&self, st: TermState, n: nat) -> TermState
        decreases n,
    {
        if n == 0 {
            st
        } else {
            self.advance_step(self.advance_n(st, (n - 1) as nat))
        }
    }

    /// The surface with glyph `c` drawn in cell `(x, y)`.
    pub open spec fn glyph_at(&self, mem: Seq<u32>, c: u8, x: int, y: int) -> Seq<u32> {
        glyph_drawn(
            mem,
            self.stride(),
            x * 8,
            y * self.cs(),
            self.font.glyph_rows(c as int),
            self.fg,
            self.bg,
        )
    }

    /// Draw `c` at the cursor, then advance.
    pub open spec fn put_raw_step(&self, st: TermState, c: u8) -> TermState {
        self.advance_step((self.glyph_at(st.0, c, st.1, st.2), st.1, st.2))
    }

    /// Newline for `\n`, advance to the next tab stop for `\t`, else draw and
    /// advance.
    pub open spec fn put_byte_step(&self, st: TermState, c: u8) -> TermState {
        if c == 10 {
            self.newline_step(st)
        } else if c == 9 {
            self.advance_n(st, tab_len(st.1))
        } else {
            self.put_raw_step(st, c)
        }
    }

    /// Each byte in turn.
    pub open spec fn put_bytes_step(&self, st: TermState, bs: Seq<u8>) -> TermState
        decreases bs.len(),
    {
        if bs.len() == 0 {
            st
        } else {
            self.put_byte_step(self.put_bytes_step(st, bs.drop_last()), bs.last())
        }
    }

    /// Advancing keeps the cursor on the grid.
    pub proof fn lemma_advance_in_bounds(&self, st: TermState)
        requires
            self.wf(),
            self.in_bounds(st),
        ensures
            self.in_bounds(self.advance_step(st)),
            self.in_bounds(self.newline_step(st)),
    {
    }

    /// Any number of advances keeps the cursor on the grid.
    pub proof fn lemma_advance_n_in_bounds(&self, st: TermState, n: nat)
        requires
            self.wf(),
            self.in_bounds(st),
        ensures
            self.in_bounds(self.advance_n(st, n)),
        decreases n,
    {
        if n > 0 {
            self.lemma_advance_n_in_bounds(st, (n - 1) as nat);
            self.lemma_advance_in_bounds(self.advance_n(st, (n - 1) as nat));
        }
    }

    /// After any sequence of bytes the cursor is still on the grid.
    pub proof fn lemma_put_bytes_in_bounds(&self, st: TermState, bs: Seq<u8>)
        requires
            self.wf(),
            self.in_bounds(st),
        ensures
            self.in_bounds(self.put_bytes_step(st, bs)),
        decreases bs.len(),
    {
        if bs.len() > 0 {
            self.lemma_put_bytes_in_bounds(st, bs.drop_last());
            let mid = self.put_bytes_step(st, bs.drop_last());
            self.lemma_advance_in_bounds(mid);
            self.lemma_advance_in_bounds(
                (self.glyph_at(mid.0, bs.last(), mid.1, mid.2), mid.1, mid.2),
            );
            self.lemma_advance_n_in_bounds(mid, tab_len(mid.1));
        }
    }
}

impl TermConfig {
    /// Advances that stay on one line only move the cursor.
    pub proof fn lemma_advance_n_same_line(&self, st: TermState, n: nat)
        requires
            st.1 + n < self.width_chars(),
        ensures
            self.advance_n(st, n) == (st.0, st.1 + n, st.2),
        decreases n,
    {
        if n > 0 {
            self.lemma_advance_n_same_line(st, (n - 1) as nat);
        }
    }

    /// A tab from column `x` moves the cursor to the least multiple of 4 greater
    /// than `x`, on the same line and without drawing, whenever that column is on
    /// the grid. From a column that is already a multiple of 4 it still moves 4.
    pub proof fn lemma_tab_reaches_next_stop(&self, st: TermState)
        requires
            self.wf(),
            self.in_bounds(st),
            st.1 + tab_len(st.1) < self.width_chars(),
        ensures
            self.put_byte_step(st, 9) == (st.0, st.1 + tab_len(st.1), st.2),
            (st.1 + tab_len(st.1)) % 4 == 0,
            st.1 < st.1 + tab_len(st.1) <= st.1 + 4,
            st.1 % 4 == 0 ==> st.1 + tab_len(st.1) == st.1 + 4,
    {
        self.lemma_advance_n_same_line(st, tab_len(st.1));
    }
}

/// The advances a tab makes from column `x`: up to the next multiple of 4.
pub open spec fn tab_len(x: int) -> nat {
    (4 - x % 4) as nat
}

/// This structure owns a video buffer and two fonts of one character size, and
/// treats the entire video buffer as a grid of character cells.
pub struct TerminalVideoBuffer {
    video_buffer: VideoBuffer,
    regular_font: ScreenFont,
    bold_font: ScreenFont,
    cursor: Vec2<usize>,
    foreground: Colour,
    background: Colour,
}

impl TerminalVideoBuffer {
    pub closed spec fn video(&self) -> VideoBuffer {
        self.video_buffer
    }

    pub closed spec fn regular(&self) -> ScreenFont {
        self.regular_font
    }

    pub closed spec fn bold(&self) -> ScreenFont {
        self.bold_font
    }

    pub closed spec fn cursor_spec(&self) -> Vec2<usize> {
        self.cursor
    }

    pub closed spec fn fg(&self) -> u32 {
        self.foreground@
    }

    pub closed spec fn bg(&self) -> u32 {
        self.background@
    }

    pub open spec fn config(&self) -> TermConfig {
        TermConfig {
            width: self.video().width_spec() as usize,
            height: self.video().height_spec() as usize,
            pitch: self.video().pitch_spec() as usize,
            font: self.regular(),
            fg: self.fg(),
            bg: self.bg(),
        }
    }

    /// Width in character cells.
    pub open spec fn width_spec(&self) -> nat {
        self.config().width_chars()
    }

    /// Height in character cells.
    pub open spec fn height_spec(&self) -> nat {
        self.config().height_chars()
    }

    /// The surface is well formed, both fonts are, they share one character size,
    /// at least one cell fits, and the cursor lies on the grid.
    pub open spec fn wf(&self) -> bool {
        &&& self.video().wf()
        &&& self.config().wf()
        &&& self.bold().wf()
        &&& self.bold().character_size_spec() == self.config().cs()
        &&& self.config().in_bounds(self.state())
    }

    pub open spec fn state(&self) -> TermState {
        (self.video()@, self.cursor_spec().x as int, self.cursor_spec().y as int)
    }

    /// Same surface geometry, fonts and colours.
    pub open spec fn same_config(&self, other: &TerminalVideoBuffer) -> bool {
        &&& self.config() == other.config()
        &&& self.bold() == other.bold()
    }

    /// A terminal on `video_buffer`, cursor at the top left, white on black. Fails
    /// unless the fonts share a positive character size and at least one cell fits
    /// on the surface.
    pub fn new(video_buffer: VideoBuffer, regular_font: ScreenFont, bold_font: ScreenFont) -> (r:
        Option<TerminalVideoBuffer>)
        requires
            video_buffer.wf(),
            regular_font.wf(),
            bold_font.wf(),
        ensures
            r is Some <==> ({
                let cs = regular_font.character_size_spec();
                &&& cs > 0
                &&& bold_font.character_size_spec() == cs
                &&& video_buffer.width_spec() >= 8
                &&& video_buffer.height_spec() >= cs
            }),
            r matches Some(t) ==> {
                &&& t.wf()
                &&& t.video() == video_buffer
                &&& t.regular() == regular_font
                &&& t.bold() == bold_font
                &&& t.cursor_spec().x == 0
                &&& t.cursor_spec().y == 0
                &&& t.fg() == WHITE
                &&& t.bg() == BLACK
            },
    {
        let cs = regular_font.character_size();
        if cs == 0 || bold_font.character_size() != cs || video_buffer.width() < 8
            || video_buffer.height() < cs as usize {
            return None;
        }
        proof {
            vstd::arithmetic::div_mod::lemma_div_by_self(cs as int);
            vstd::arithmetic::div_mod::lemma_div_is_ordered(
                cs as int,
                video_buffer.height_spec() as int,
                cs as int,
            );
        }
        Some(
            TerminalVideoBuffer {
                video_buffer,
                regular_font,
                bold_font,
                cursor: Vec2::new(0, 0),
                foreground: Colour::new(WHITE),
                background: Colour::new(BLACK),
            },
        )
    }

    /// Returns the width of this terminal in characters.
    pub fn width(&self) -> (r: usize)
        ensures
            r == self.width_spec(),
    {
        self.video_buffer.width() / 8
    }

    /// Returns the height of this terminal in characters.
    pub fn height(&self) -> (r: usize)
        requires
            self.wf(),
        ensures
            r == self.height_spec(),
    {
        self.video_buffer.height() / self.regular_font.character_size() as usize
    }

    pub fn cursor(&self) -> (r: Vec2<usize>)
        ensures
            r == self.cursor_spec(),
    {
        self.cursor
    }

    pub fn foreground(&self) -> (r: Colour)
        ensures
            r@ == self.fg(),
    {
        self.foreground
    }

    pub fn background(&self) -> (r: Colour)
        ensures
            r@ == self.bg(),
    {
        self.background
    }

    /// The surface the terminal draws on.
    pub fn video_buffer(&self) -> (r: &VideoBuffer)
        ensures
            *r == self.video(),
    {
        &self.video_buffer
    }

    /// The colour of glyphs drawn from now on.
    pub fn set_foreground(&mut self, colour: Colour)
        requires
            old(self).wf(),
        ensures
            final(self).wf(),
            final(self).fg() == colour@,
            final(self).bg() == old(self).bg(),
            final(self).video() == old(self).video(),
            final(self).regular() == old(self).regular(),
            final(self).bold() == old(self).bold(),
            final(self).cursor_spec() == old(self).cursor_spec(),
    {
        self.foreground = colour;
    }

    /// The colour behind glyphs drawn from now on, and of clearing.
    pub fn set_background(&mut self, colour: Colour)
        requires
            old(self).wf(),
        ensures
            final(self).wf(),
            final(self).bg() == colour@,
            final(self).fg() == old(self).fg(),
            final(self).video() == old(self).video(),
            final(self).regular() == old(self).regular(),
            final(self).bold() == old(self).bold(),
            final(self).cursor_spec() == old(self).cursor_spec(),
    {
        self.background = colour;
    }

    /// Fills the surface with the background colour; the cursor stays.
    pub fn clear_screen(&mut self)
        requires
            old(self).wf(),
        ensures
            final(self).wf(),
            final(self).same_config(old(self)),
            final(self).state() == (
                cleared(old(self).video()@, old(self).video().stride(), old(self).video().width_spec() as int, old(self).bg()),
                old(self).state().1,
                old(self).state().2,
            ),
    {
        self.video_buffer.fill_buffer(self.background);
    }

    /// Sets the cursor to the given position, clamping each coordinate to the grid.
    pub fn set_cursor(&mut self, pos: Vec2<usize>)
        requires
            old(self).wf(),
        ensures
            final(self).wf(),
            final(self).same_config(old(self)),
            final(self).video() == old(self).video(),
            final(self).cursor_spec().x == if pos.x < old(self).width_spec() {
                pos.x as int
            } else {
                old(self).width_spec() - 1
            },
            final(self).cursor_spec().y == if pos.y < old(self).height_spec() {
                pos.y as int
            } else {
                old(self).height_spec() - 1
            },
    {
        let w = self.width();
        let h = self.height();
        let x = if pos.x < w {
            pos.x
        } else {
            w - 1
        };
        let y = if pos.y < h {
            pos.y
        } else {
            h - 1
        };
        self.cursor = Vec2::new(x, y);
    }

    /// Moves the cursor to the start of the next line. On the last line the
    /// surface first moves up one text line and the last line is cleared to the
    /// background colour; the cursor then stays on that line.
    pub fn put_newline(&mut self)
        requires
            old(self).wf(),
        ensures
            final(self).wf(),
            final(self).same_config(old(self)),
            final(self).state() == old(self).config().newline_step(old(self).state()),
    {
        let h = self.height();
        let y = self.cursor.y;
        if y + 1 < h {
            self.cursor = Vec2::new(0, y + 1);
        } else {
            let cs = self.regular_font.character_size() as usize;
            let ghost v0 = self.video_buffer;
            proof {
                lemma_cells_fit(h as int - 1, cs as int, self.video_buffer.height_spec() as int);
            }
            self.video_buffer.slide_up(cs);
            let top: usize = (h - 1) * cs;
            let rect = Rect::new_unchecked(
                Vec2::new(0, top),
                Vec2::new(self.video_buffer.width(), self.video_buffer.height()),
            );
            self.video_buffer.draw_rect_unchecked(rect, self.background);
            self.cursor = Vec2::new(0, y);
            proof {
                assert(self.video()@ == old(self).config().scrolled(v0@));
            }
        }
    }

    /// Advances the cursor one cell; after the last column it goes to the start of
    /// the next line, as [`Self::put_newline`] does.
    pub fn advance_cursor(&mut self)
        requires
            old(self).wf(),
        ensures
            final(self).wf(),
            final(self).same_config(old(self)),
            final(self).state() == old(self).config().advance_step(old(self).state()),
    {
        let w = self.width();
        if self.cursor.x + 1 == w {
            self.put_newline();
        } else {
            self.cursor.x = self.cursor.x + 1;
        }
    }

    /// Draws glyph `c` in the cell at `pos`, whatever the cursor; `pos` must lie on
    /// the grid. `c` is drawn as a glyph even where it is a control byte.
    pub fn put_char_at(&mut self, c: u8, pos: Vec2<usize>)
        requires
            old(self).wf(),
            pos.x < old(self).width_spec(),
            pos.y < old(self).height_spec(),
        ensures
            final(self).wf(),
            final(self).same_config(old(self)),
            final(self).state() == (
                old(self).config().glyph_at(old(self).state().0, c, pos.x as int, pos.y as int),
                old(self).state().1,
                old(self).state().2,
            ),
    {
        let cs = self.regular_font.character_size() as usize;
        proof {
            lemma_cells_fit(pos.y as int, cs as int, self.video_buffer.height_spec() as int);
            lemma_cells_fit(pos.x as int, 8, self.video_buffer.width_spec() as int);
        }
        self.video_buffer.draw_glyph_unchecked(
            Vec2::new(pos.x * 8, pos.y * cs),
            &self.regular_font,
            c,
            self.foreground,
            self.background,
        );
    }

    /// Draws glyph `c` at the cursor and advances it. `c` is drawn as a glyph even
    /// where it is a control byte; see [`Self::put_char`].
    pub fn put_char_raw(&mut self, c: u8)
        requires
            old(self).wf(),
        ensures
            final(self).wf(),
            final(self).same_config(old(self)),
            final(self).state() == old(self).config().put_raw_step(old(self).state(), c),
    {
        let pos = self.cursor;
        self.put_char_at(c, pos);
        self.advance_cursor();
    }

    /// Puts one byte: `\n` moves to the start of the next line; `\t` advances the
    /// cursor `4 - x % 4` cells from column `x`, to the next multiple of 4 where
    /// the line is long enough (always at least one cell); any other byte is drawn
    /// at the cursor, which then advances.
    pub fn put_char(&mut self, c: u8)
        requires
            old(self).wf(),
        ensures
            final(self).wf(),
            final(self).same_config(old(self)),
            final(self).state() == old(self).config().put_byte_step(old(self).state(), c),
    {
        if c == 10u8 {
            self.put_newline();
        } else if c == 9u8 {
            let n = 4 - self.cursor.x % 4;
            let ghost st0 = self.state();
            let mut k: usize = 0;
            while k < n
                invariant
                    self.wf(),
                    self.same_config(old(self)),
                    st0 == old(self).state(),
                    n == tab_len(st0.1),
                    k <= n,
                    self.state() == old(self).config().advance_n(st0, k as nat),
                decreases n - k,
            {
                self.advance_cursor();
                k = k + 1;
            }
        } else {
            self.put_char_raw(c);
        }
    }

    /// Puts each byte of `string` in turn, as [`Self::put_char`] does.
    pub fn put_string(&mut self, string: &[u8])
        requires
            old(self).wf(),
        ensures
            final(self).wf(),
            final(self).same_config(old(self)),
            final(self).state() == old(self).config().put_bytes_step(old(self).state(), string@),
    {
        let mut i: usize = 0;
        while i < string.len()
            invariant
                self.wf(),
                self.same_config(old(self)),
                i <= string@.len(),
                self.state() == old(self).config().put_bytes_step(old(self).state(), string@.take(i as int)),
            decreases string@.len() - i,
        {
            proof {
                assert(string@.take(i + 1).drop_last() =~= string@.take(i as int));
            }
            let ghost before = self.state();
            self.put_char(string[i]);
            proof {
                let bs = string@.take(i + 1);
                assert(bs.drop_last() =~= string@.take(i as int));
                assert(bs.last() == string@[i as int]);
            }
            i = i + 1;
        }
        assert(string@.take(string@.len() as int) =~= string@);
    }

    /// Puts the bytes of `s`, as [`Self::put_string`] does; text is drawn byte by
    /// byte through the font's 8-bit code page.
    pub fn write_str(&mut self, s: &str)
        requires
            old(self).wf(),
        ensures
            final(self).wf(),
            final(self).same_config(old(self)),
            final(self).state() == old(self).config().put_bytes_step(old(self).state(), s.spec_bytes()),
    {
        self.put_string(s.as_bytes());
    }

    /// Installs this terminal as the console in `slot`, which must be empty. A
    /// second install is refused and hands the terminal back, leaving the slot as
    /// it was.
    pub fn make_default(self, slot: &mut Option<TerminalVideoBuffer>) -> (r: Result<
        (),
        TerminalVideoBuffer,
    >)
        ensures
            (*old(slot)) is None ==> r is Ok && *final(slot) == Some(self),
            (*old(slot)) is Some ==> r == Err::<(), TerminalVideoBuffer>(self) && *final(slot) == *old(slot),
    {
        if slot.is_some() {
            Err(self)
        } else {
            *slot = Some(self);
            Ok(())
        }
    }
}

} // verus!
