//! A framebuffer: `height` rows of `pitch` bytes, each row starting with `width`
//! 32-bit pixels. The pixel at `(x, y)` is the word at byte offset
//! `x * 4 + y * pitch`. Every store into it is volatile.

use vstd::arithmetic::div_mod::{lemma_fundamental_div_mod, lemma_fundamental_div_mod_converse};
use vstd::prelude::*;
use volatile::VolatileRef;

use crate::colour::Colour;
use crate::linalg::rect::Rect;
use crate::linalg::vec::Vec2;
use crate::screen_font::ScreenFont;

verus! {

/// Whether pixel `col` (0 is leftmost) of a glyph row is set: bit `7 - col`.
pub open spec fn pixel_set(bits: u8, col: int) -> bool {
    bits & (0x80u8 >> (col as u8)) != 0
}

/// `mem`, read as rows of `stride` words, with the pixels of the box
/// `[x0, x1) × [y0, y1)` set to `c`.
pub open spec fn box_filled(
    mem: Seq<u32>,
    stride: nat,
    x0: int,
    y0: int,
    x1: int,
    y1: int,
    c: u32,
) -> Seq<u32> {
    Seq::new(
        mem.len(),
        |i: int|
            if x0 <= i % (stride as int) < x1 && y0 <= i / (stride as int) < y1 {
                c
            } else {
                mem[i]
            },
    )
}

/// `mem` with the first `width` pixels of every row set to `c`; the padding at the
/// end of each row is left alone.
pub open spec fn cleared(mem: Seq<u32>, stride: nat, width: int, c: u32) -> Seq<u32> {
    Seq::new(mem.len(), |i: int| if i % (stride as int) < width { c } else { mem[i] })
}

/// `mem` with the first `ncols` pixels of glyph row `bits` drawn at `(px, py)`.
pub open spec fn row_drawn(
    mem: Seq<u32>,
    stride: nat,
    px: int,
    py: int,
    bits: u8,
    ncols: int,
    fg: u32,
    bg: u32,
) -> Seq<u32> {
    Seq::new(
        mem.len(),
        |i: int|
            if i / (stride as int) == py && 0 <= i % (stride as int) - px < ncols {
                if pixel_set(bits, i % (stride as int) - px) {
                    fg
                } else {
                    bg
                }
            } else {
                mem[i]
            },
    )
}

/// `mem` with an 8-pixel-wide glyph of the given rows drawn with its top left at
/// `(px, py)`: `fg` where a bit is set, `bg` where it is not.
pub open spec fn glyph_drawn(
    mem: Seq<u32>,
    stride: nat,
    px: int,
    py: int,
    rows: Seq<u8>,
    fg: u32,
    bg: u32,
) -> Seq<u32> {
    Seq::new(
        mem.len(),
        |i: int|
            if 0 <= i % (stride as int) - px < 8 && 0 <= i / (stride as int) - py < rows.len() {
                if pixel_set(rows[i / (stride as int) - py], i % (stride as int) - px) {
                    fg
                } else {
                    bg
                }
            } else {
                mem[i]
            },
    )
}

/// `mem` moved towards its start by `shift` words; the last `shift` words keep
/// what they held.
pub open spec fn slid(mem: Seq<u32>, shift: int) -> Seq<u32> {
    Seq::new(mem.len(), |i: int| if i + shift < mem.len() { mem[i + shift] } else { mem[i] })
}

/// The word index `i` of a surface with rows of `stride` words is column
/// `i % stride` of row `i / stride`.
pub proof fn lemma_cell_of(i: int, stride: nat, x: int, y: int)
    requires
        stride > 0,
        0 <= x < stride,
        i == y * stride + x,
    ensures
        i % (stride as int) == x,
        i / (stride as int) == y,
{
    lemma_fundamental_div_mod_converse(i, stride as int, y, x);
}

proof fn lemma_split(i: int, stride: nat)
    requires
        stride > 0,
        0 <= i,
    ensures
        i == (i / (stride as int)) * stride + i % (stride as int),
        0 <= i % (stride as int) < stride,
        0 <= i / (stride as int),
{
    lemma_fundamental_div_mod(i, stride as int);
    assert((i / (stride as int)) * (stride as int) == (stride as int) * (i / (stride as int)))
        by (nonlinear_arith);
    assert(0 <= i / (stride as int)) by {
        vstd::arithmetic::div_mod::lemma_div_pos_is_pos(i, stride as int);
    }
}

/// Filling the rectangle `[0, width) × [0, height)` of a surface of `height` rows
/// of `stride` words leaves the same memory as clearing the whole surface.
pub proof fn lemma_full_rect_fill_is_clear(
    mem: Seq<u32>,
    stride: nat,
    width: int,
    height: nat,
    c: u32,
)
    requires
        stride > 0,
        mem.len() == height * stride,
    ensures
        box_filled(mem, stride, 0, 0, width, height as int, c) == cleared(mem, stride, width, c),
{
    assert forall|i: int| 0 <= i < mem.len() implies box_filled(mem, stride, 0, 0, width, height as int, c)[i]
        == cleared(mem, stride, width, c)[i] by {
        lemma_split(i, stride);
        let q = i / (stride as int);
        let r = i % (stride as int);
        if q >= height {
            assert(q * stride + r >= height * stride) by (nonlinear_arith)
                requires
                    q >= height,
                    r >= 0,
            ;
        }
    }
    assert(box_filled(mem, stride, 0, 0, width, height as int, c) =~= cleared(mem, stride, width, c));
}

proof fn lemma_index_in_bounds(x: int, y: int, stride: int, height: int)
    requires
        0 <= x < stride,
        0 <= y < height,
    ensures
        0 <= y * stride + x < height * stride,
        (y + 1) * stride <= height * stride,
{
    assert(0 <= y * stride + x < height * stride) by (nonlinear_arith)
        requires
            0 <= x < stride,
            0 <= y < height,
    ;
    assert((y + 1) * stride <= height * stride) by (nonlinear_arith)
        requires
            0 <= x < stride,
            0 <= y < height,
    ;
}

/// Relies on volatile's `VolatileRef::from_mut_ref` and `VolatilePtr::write`: one
/// volatile store of `value` into `memory[index]`, which nothing else changes.
#[verifier::external_body]
fn store_volatile(memory: &mut Vec<u32>, index: usize, value: u32)
    requires
        index < old(memory)@.len(),
    ensures
        final(memory)@ == old(memory)@.update(index as int, value),
{
    VolatileRef::from_mut_ref(&mut memory[index]).write_only().into_ptr().write(value);
}

/// Exclusive owner of a framebuffer's memory.
pub struct VideoBuffer {
    memory: Vec<u32>,
    width: usize,
    height: usize,
    pitch: usize,
}

impl View for VideoBuffer {
    /// The surface memory, one word per pixel slot, row after row.
    type V = Seq<u32>;

    closed spec fn view(&self) -> Seq<u32> {
        self.memory@
    }
}

impl VideoBuffer {
    /// Width in pixels.
    pub closed spec fn width_spec(&self) -> nat {
        self.width as nat
    }

    /// Height in pixels.
    pub closed spec fn height_spec(&self) -> nat {
        self.height as nat
    }

    /// Bytes from the start of one row to the start of the next.
    pub closed spec fn pitch_spec(&self) -> nat {
        self.pitch as nat
    }

    /// Words from the start of one row to the start of the next.
    pub open spec fn stride(&self) -> nat {
        self.pitch_spec() / 4
    }

    /// The memory holds `height` whole rows, each with room for `width` pixels.
    pub open spec fn wf(&self) -> bool {
        &&& self.pitch_spec() % 4 == 0
        &&& self.stride() >= 1
        &&& self.width_spec() <= self.stride()
        &&& self@.len() == self.height_spec() * self.stride()
        &&& self@.len() <= usize::MAX
        &&& self.width_spec() <= usize::MAX
        &&& self.height_spec() <= usize::MAX
        &&& self.pitch_spec() <= usize::MAX
    }

    /// The pixel at `(x, y)`.
    pub open spec fn at(&self, x: int, y: int) -> u32 {
        self@[y * self.stride() + x]
    }

    /// Same dimensions and row layout.
    pub open spec fn same_shape(&self, other: &VideoBuffer) -> bool {
        &&& self.width_spec() == other.width_spec()
        &&& self.height_spec() == other.height_spec()
        &&& self.pitch_spec() == other.pitch_spec()
        &&& self@.len() == other@.len()
    }

    /// Takes ownership of the memory of a framebuffer described by its width and
    /// height in pixels and its pitch in bytes. Fails unless the pitch is a
    /// positive multiple of 4 that leaves room for `width` pixels, and the memory
    /// is exactly `height * pitch` bytes.
    pub fn new(memory: Vec<u32>, width: usize, height: usize, pitch: usize) -> (r: Option<
        VideoBuffer,
    >)
        ensures
            r is Some <==> (pitch % 4 == 0 && pitch >= 4 && width <= pitch / 4 && memory@.len()
                == height * (pitch / 4)),
            r matches Some(b) ==> {
                &&& b.wf()
                &&& b@ == memory@
                &&& b.width_spec() == width
                &&& b.height_spec() == height
                &&& b.pitch_spec() == pitch
            },
    {
        let n_words = memory.len();
        if pitch % 4 != 0 || pitch < 4 || width > pitch / 4 {
            return None;
        }
        match height.checked_mul(pitch / 4) {
            Some(n) => {
                if n_words != n {
                    return None;
                }
            },
            None => {
                return None;
            },
        }
        Some(VideoBuffer { memory, width, height, pitch })
    }

    /// Gives the memory back.
    pub fn into_memory(self) -> (r: Vec<u32>)
        ensures
            r@ == self@,
    {
        self.memory
    }

    /// The surface memory, one word per pixel slot, row after row.
    pub fn memory(&self) -> (r: &[u32])
        ensures
            r@ == self@,
    {
        self.memory.as_slice()
    }

    /// Returns the width of the video buffer in pixels.
    pub fn width(&self) -> (r: usize)
        ensures
            r == self.width_spec(),
    {
        self.width
    }

    /// Returns the height of the video buffer in pixels.
    pub fn height(&self) -> (r: usize)
        ensures
            r == self.height_spec(),
    {
        self.height
    }

    /// Returns the pitch of the video buffer in bytes.
    pub fn pitch(&self) -> (r: usize)
        ensures
            r == self.pitch_spec(),
    {
        self.pitch
    }

    /// The whole surface, `[0, width) × [0, height)`.
    pub fn screen_rect(&self) -> (r: Rect<usize>)
        ensures
            r@.0.x == 0 && r@.0.y == 0,
            r@.1.x == self.width_spec() && r@.1.y == self.height_spec(),
            r.wf(),
    {
        Rect::new_zero_to_max(Vec2::new(self.width, self.height))
    }

    /// Draws one pixel; `pos` must lie on the surface.
    pub fn draw_pixel_unchecked(&mut self, pos: Vec2<usize>, colour: Colour)
        requires
            old(self).wf(),
            pos.x < old(self).width_spec(),
            pos.y < old(self).height_spec(),
        ensures
            final(self).wf(),
            final(self).same_shape(old(self)),
            final(self)@ == old(self)@.update(pos.y * old(self).stride() + pos.x, colour@),
            final(self).at(pos.x as int, pos.y as int) == colour@,
    {
        let stride = self.pitch / 4;
        proof {
            lemma_index_in_bounds(pos.x as int, pos.y as int, stride as int, self.height as int);
        }
        store_volatile(&mut self.memory, pos.y * stride + pos.x, colour.value());
    }

    /// Fills a rectangle, `max` exclusive, with one colour. The rectangle must lie
    /// on the surface.
    pub fn draw_rect_unchecked(&mut self, rect: Rect<usize>, colour: Colour)
        requires
            old(self).wf(),
            rect.wf(),
            rect@.1.x <= old(self).width_spec(),
            rect@.1.y <= old(self).height_spec(),
        ensures
            final(self).wf(),
            final(self).same_shape(old(self)),
            final(self)@ == box_filled(
                old(self)@,
                old(self).stride(),
                rect@.0.x as int,
                rect@.0.y as int,
                rect@.1.x as int,
                rect@.1.y as int,
                colour@,
            ),
    {
        let ghost mem0 = self@;
        let stride = self.pitch / 4;
        let ghost s = stride as nat;
        let min = rect.min();
        let max = rect.max();
        let c = colour.value();
        proof {
            lemma_index_in_bounds(0, min.y as int, stride as int, self.height as int + 1);
            assert(min.y * stride <= self.height * stride) by (nonlinear_arith)
                requires
                    min.y <= self.height,
            ;
        }
        let mut row_base: usize = min.y * stride;
        let mut y: usize = min.y;
        assert(self@ =~= box_filled(mem0, s, min.x as int, min.y as int, max.x as int, y as int, c));
        while y < max.y
            invariant
                self.wf(),
                self.same_shape(old(self)),
                stride == self.stride(),
                s == stride,
                min == rect@.0,
                max == rect@.1,
                c == colour@,
                mem0 == old(self)@,
                min.x <= max.x <= self.width_spec(),
                min.y <= y <= max.y <= self.height_spec(),
                row_base == y * stride,
                self@ == box_filled(mem0, s, min.x as int, min.y as int, max.x as int, y as int, c),
            decreases max.y - y,
        {
            let ghost start = self@;
            let mut x: usize = min.x;
            assert(self@ =~= box_filled(start, s, min.x as int, y as int, x as int, y + 1, c));
            while x < max.x
                invariant
                    self.wf(),
                    self.same_shape(old(self)),
                    stride == self.stride(),
                    s == stride,
                    min == rect@.0,
                    max == rect@.1,
                    c == colour@,
                    min.x <= x <= max.x <= self.width_spec(),
                    min.y <= y < max.y <= self.height_spec(),
                    row_base == y * stride,
                    start.len() == self@.len(),
                    self@ == box_filled(start, s, min.x as int, y as int, x as int, y + 1, c),
                decreases max.x - x,
            {
                let ghost before = self@;
                proof {
                    lemma_index_in_bounds(x as int, y as int, stride as int, self.height as int);
                }
                store_volatile(&mut self.memory, row_base + x, c);
                proof {
                    let i0 = row_base + x;
                    lemma_cell_of(i0, s, x as int, y as int);
                    assert forall|i: int| 0 <= i < self@.len() implies self@[i] == box_filled(
                        start,
                        s,
                        min.x as int,
                        y as int,
                        x + 1,
                        y + 1,
                        c,
                    )[i] by {
                        lemma_split(i, s);
                        if i != i0 {
                            assert(!(i % (s as int) == x && i / (s as int) == y));
                        }
                    }
                    assert(self@ =~= box_filled(start, s, min.x as int, y as int, x + 1, y + 1, c));
                }
                x = x + 1;
            }
            proof {
                lemma_index_in_bounds(0, y as int, stride as int, self.height as int);
                assert(self@ =~= box_filled(
                    mem0,
                    s,
                    min.x as int,
                    min.y as int,
                    max.x as int,
                    y + 1,
                    c,
                ));
            }
            assert((y + 1) * stride == y * stride + stride) by (nonlinear_arith);
            row_base = row_base + stride;
            y = y + 1;
        }
    }

    /// Fills a rectangle, `max` exclusive, with one colour. The rectangle must lie
    /// on the surface: `max.x <= width` and `max.y <= height`.
    pub fn draw_rect(&mut self, rect: Rect<usize>, colour: Colour)
        requires
            old(self).wf(),
            rect.wf(),
            rect@.1.x <= old(self).width_spec(),
            rect@.1.y <= old(self).height_spec(),
        ensures
            final(self).wf(),
            final(self).same_shape(old(self)),
            final(self)@ == box_filled(
                old(self)@,
                old(self).stride(),
                rect@.0.x as int,
                rect@.0.y as int,
                rect@.1.x as int,
                rect@.1.y as int,
                colour@,
            ),
    {
        self.draw_rect_unchecked(rect, colour);
    }

    /// Fills the entire buffer with the given colour: every pixel of every row
    /// becomes `colour`, the padding after each row is left alone.
    pub fn fill_buffer(&mut self, colour: Colour)
        requires
            old(self).wf(),
        ensures
            final(self).wf(),
            final(self).same_shape(old(self)),
            final(self)@ == cleared(old(self)@, old(self).stride(), old(self).width_spec() as int, colour@),
    {
        let rect = self.screen_rect();
        self.draw_rect_unchecked(rect, colour);
        proof {
            lemma_full_rect_fill_is_clear(
                old(self)@,
                old(self).stride(),
                old(self).width_spec() as int,
                old(self).height_spec(),
                colour@,
            );
        }
    }

    /// Draws glyph `index` of `font` with its top left pixel at `pos`: `foreground`
    /// where a bit of the glyph is set, `background` where it is not. The 8 columns
    /// and `character_size` rows must lie on the surface.
    pub fn draw_glyph_unchecked(
        &mut self,
        pos: Vec2<usize>,
        font: &ScreenFont,
        index: u8,
        foreground: Colour,
        background: Colour,
    )
        requires
            old(self).wf(),
            font.wf(),
            pos.x + 8 <= old(self).width_spec(),
            pos.y + font.character_size_spec() <= old(self).height_spec(),
        ensures
            final(self).wf(),
            final(self).same_shape(old(self)),
            final(self)@ == glyph_drawn(
                old(self)@,
                old(self).stride(),
                pos.x as int,
                pos.y as int,
                font.glyph_rows(index as int),
                foreground@,
                background@,
            ),
    {
        let ghost mem0 = self@;
        let ghost rows = font.glyph_rows(index as int);
        let stride = self.pitch / 4;
        let ghost s = stride as nat;
        let height = font.character_size() as usize;
        let fg = foreground.value();
        let bg = background.value();
        proof {
            font.lemma_glyph_in_table(index as int);
            lemma_index_in_bounds(0, pos.y as int, stride as int, self.height as int + 1);
            assert(pos.y * stride <= self.height * stride) by (nonlinear_arith)
                requires
                    pos.y <= self.height,
            ;
        }
        let mut row_base: usize = pos.y * stride;
        let mut r: usize = 0;
        assert(self@ =~= glyph_drawn(mem0, s, pos.x as int, pos.y as int, rows.take(0), fg, bg));
        while r < height
            invariant
                self.wf(),
                self.same_shape(old(self)),
                font.wf(),
                stride == self.stride(),
                s == stride,
                height == font.character_size_spec(),
                rows == font.glyph_rows(index as int),
                rows.len() == height,
                fg == foreground@,
                bg == background@,
                mem0 == old(self)@,
                pos.x + 8 <= self.width_spec(),
                pos.y + height <= self.height_spec(),
                r <= height,
                row_base == (pos.y + r) * stride,
                self@ == glyph_drawn(mem0, s, pos.x as int, pos.y as int, rows.take(r as int), fg, bg),
            decreases height - r,
        {
            let bits = font.glyph_row(index, r);
            let ghost start = self@;
            let y: usize = pos.y + r;
            let mut x: usize = 0;
            assert(self@ =~= row_drawn(start, s, pos.x as int, y as int, bits, 0, fg, bg));
            while x < 8
                invariant
                    self.wf(),
                    self.same_shape(old(self)),
                    stride == self.stride(),
                    s == stride,
                    pos.x + 8 <= self.width_spec(),
                    y < self.height_spec(),
                    x <= 8,
                    row_base == y * stride,
                    start.len() == self@.len(),
                    self@ == row_drawn(start, s, pos.x as int, y as int, bits, x as int, fg, bg),
                decreases 8 - x,
            {
                let col = pos.x + x;
                proof {
                    lemma_index_in_bounds(col as int, y as int, stride as int, self.height as int);
                }
                let value = if bits & (0x80u8 >> (x as u8)) != 0 {
                    fg
                } else {
                    bg
                };
                store_volatile(&mut self.memory, row_base + col, value);
                proof {
                    let i0 = row_base + col;
                    lemma_cell_of(i0, s, col as int, y as int);
                    assert forall|i: int| 0 <= i < self@.len() implies self@[i] == row_drawn(
                        start,
                        s,
                        pos.x as int,
                        y as int,
                        bits,
                        x + 1,
                        fg,
                        bg,
                    )[i] by {
                        lemma_split(i, s);
                        if i != i0 {
                            assert(!(i % (s as int) == col && i / (s as int) == y));
                        }
                    }
                    assert(self@ =~= row_drawn(start, s, pos.x as int, y as int, bits, x + 1, fg, bg));
                }
                x = x + 1;
            }
            proof {
                lemma_index_in_bounds(0, y as int, stride as int, self.height as int);
                assert(rows[r as int] == bits);
                assert(self@ =~= glyph_drawn(
                    mem0,
                    s,
                    pos.x as int,
                    pos.y as int,
                    rows.take(r + 1),
                    fg,
                    bg,
                ));
            }
            assert((y + 1) * stride == y * stride + stride) by (nonlinear_arith);
            row_base = row_base + stride;
            r = r + 1;
        }
        assert(rows.take(height as int) =~= rows);
    }

    /// Moves the whole surface up by `lines` rows, by copying the memory from byte
    /// offset `pitch * lines` to offset 0. The last `lines` rows keep what they held.
    pub fn slide_up(&mut self, lines: usize)
        requires
            old(self).wf(),
            lines <= old(self).height_spec(),
        ensures
            final(self).wf(),
            final(self).same_shape(old(self)),
            final(self)@ == slid(old(self)@, lines * old(self).stride()),
    {
        let ghost mem0 = self@;
        let stride = self.pitch / 4;
        proof {
            assert(lines * stride <= self.height * stride) by (nonlinear_arith)
                requires
                    lines <= self.height,
            ;
        }
        let shift = lines * stride;
        let len = self.memory.len();
        let mut i: usize = 0;
        assert(self@ =~= Seq::new(mem0.len(), |j: int| if j < 0 && j + shift < mem0.len() { mem0[j + shift] } else { mem0[j] }));
        while i + shift < len
            invariant
                self.wf(),
                self.same_shape(old(self)),
                mem0 == old(self)@,
                len == mem0.len(),
                shift <= len,
                i + shift <= len,
                forall|j: int| 0 <= j < i ==> #[trigger] self@[j] == mem0[j + shift],
                forall|j: int| i <= j < len ==> #[trigger] self@[j] == mem0[j],
            decreases len - i,
        {
            let value = self.memory[i + shift];
            store_volatile(&mut self.memory, i, value);
            i = i + 1;
        }
        assert(self@ =~= slid(mem0, shift as int));
    }
}

} // verus!
