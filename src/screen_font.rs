//! PC screen fonts, version 1: a 4-byte header `[0x36, 0x04, mode, character_size]`
//! followed by the glyph table, `character_size` bytes per glyph, one byte per row,
//! bit 7 being the leftmost of the 8 pixels.

use vstd::prelude::*;

verus! {

/// The two bytes that open every font resource.
pub const MAGIC_0: u8 = 0x36;

pub const MAGIC_1: u8 = 0x04;

/// Mode bit: the font has 512 glyphs rather than 256.
pub const MODE_512: u8 = 0x01;

/// Mode bit: the font carries a unicode table after its glyphs.
pub const MODE_HAS_TAB: u8 = 0x02;

/// Mode bit: equivalent to [`MODE_HAS_TAB`].
pub const MODE_SEQ: u8 = 0x04;

/// The mode byte of a font header. Every bit is kept, known or not.
#[derive(Clone, Copy, Debug, PartialEq, Eq)]
pub struct FontMode {
    pub bits: u8,
}

impl FontMode {
    pub open spec fn is_mode512_spec(&self) -> bool {
        self.bits & MODE_512 != 0
    }

    pub open spec fn glyph_count_spec(&self) -> nat {
        if self.is_mode512_spec() {
            512
        } else {
            256
        }
    }

    pub fn from_bits(bits: u8) -> (r: Self)
        ensures
            r.bits == bits,
    {
        FontMode { bits }
    }

    pub fn bits(&self) -> (r: u8)
        ensures
            r == self.bits,
    {
        self.bits
    }

    pub fn is_mode512(&self) -> (r: bool)
        ensures
            r == self.is_mode512_spec(),
    {
        self.bits & MODE_512 != 0
    }

    pub fn has_unicode_table(&self) -> (r: bool)
        ensures
            r == (self.bits & (MODE_HAS_TAB | MODE_SEQ) != 0),
    {
        self.bits & (MODE_HAS_TAB | MODE_SEQ) != 0
    }

    /// 512 if the mode's low bit is set, else 256.
    pub fn glyph_count(&self) -> (r: usize)
        ensures
            r == self.glyph_count_spec(),
    {
        if self.is_mode512() {
            512
        } else {
            256
        }
    }
}

/// The header of a font resource.
#[derive(Clone, Copy, Debug, PartialEq, Eq)]
pub struct ScreenFontHeader {
    pub magic: [u8; 2],
    pub font_mode: FontMode,
    pub character_size: u8,
}

impl ScreenFontHeader {
    pub open spec fn glyph_count_spec(&self) -> nat {
        self.font_mode.glyph_count_spec()
    }

    /// The number of bytes the glyph table takes.
    pub open spec fn table_len(&self) -> nat {
        self.glyph_count_spec() * self.character_size as nat
    }

    pub fn glyph_count(&self) -> (r: usize)
        ensures
            r == self.glyph_count_spec(),
    {
        self.font_mode.glyph_count()
    }
}

/// What makes a font resource unusable. Each one is a packaging defect.
#[derive(Clone, Copy, Debug, PartialEq, Eq)]
pub enum FontError {
    /// Fewer than the 4 bytes of the header.
    TooShort,
    /// The first two bytes are not `[0x36, 0x04]`; they are given.
    BadMagic([u8; 2]),
    /// The bytes after the header are fewer than the glyph table needs.
    Truncated,
}

pub open spec fn magic_ok(data: Seq<u8>) -> bool {
    data[0] == MAGIC_0 && data[1] == MAGIC_1
}

/// The header that the first four bytes of `data` spell.
pub open spec fn header_of(data: Seq<u8>) -> ScreenFontHeader {
    ScreenFontHeader {
        magic: [data[0], data[1]],
        font_mode: FontMode { bits: data[2] },
        character_size: data[3],
    }
}

/// A parsed font: its header and the bytes that follow it, of which the first
/// `glyph_count * character_size` are the glyph table.
pub struct ScreenFont {
    header: ScreenFontHeader,
    font_data: &'static [u8],
}

impl View for ScreenFont {
    type V = (ScreenFontHeader, Seq<u8>);

    closed spec fn view(&self) -> (ScreenFontHeader, Seq<u8>) {
        (self.header, self.font_data@)
    }
}

impl ScreenFont {
    /// The invariant: the glyph table is all there.
    pub open spec fn wf(&self) -> bool {
        self@.1.len() >= self@.0.table_len()
    }

    pub open spec fn character_size_spec(&self) -> nat {
        self@.0.character_size as nat
    }

    /// Row `row` of glyph `index`.
    pub open spec fn glyph_row_spec(&self, index: int, row: int) -> u8 {
        self@.1[index * self.character_size_spec() + row]
    }

    /// The rows of glyph `index`, top first.
    pub open spec fn glyph_rows(&self, index: int) -> Seq<u8> {
        self@.1.subrange(
            index * self.character_size_spec(),
            index * self.character_size_spec() + self.character_size_spec(),
        )
    }

    /// The glyph of any byte lies within the table.
    pub proof fn lemma_glyph_in_table(&self, index: int)
        requires
            self.wf(),
            0 <= index < 256,
        ensures
            0 <= index * self.character_size_spec(),
            index * self.character_size_spec() + self.character_size_spec() <= self@.1.len(),
            self.glyph_rows(index).len() == self.character_size_spec(),
    {
        let c = self@.0.glyph_count_spec() as int;
        let cs = self.character_size_spec() as int;
        assert(c >= 256);
        assert(0 <= index * cs && index * cs + cs <= c * cs) by (nonlinear_arith)
            requires
                0 <= index < 256,
                c >= 256,
                cs >= 0,
        ;
    }

    /// Parses a font resource: the header, then the glyph table after it.
    pub fn from_data(data: &'static [u8]) -> (r: Result<ScreenFont, FontError>)
        ensures
            match r {
                Ok(font) => {
                    &&& data@.len() >= 4
                    &&& magic_ok(data@)
                    &&& data@.len() - 4 >= header_of(data@).table_len()
                    &&& font@ == (header_of(data@), data@.subrange(4, data@.len() as int))
                    &&& font.wf()
                },
                Err(FontError::TooShort) => data@.len() < 4,
                Err(FontError::BadMagic(m)) => {
                    &&& data@.len() >= 4
                    &&& !magic_ok(data@)
                    &&& m@ == seq![data@[0], data@[1]]
                },
                Err(FontError::Truncated) => {
                    &&& data@.len() >= 4
                    &&& magic_ok(data@)
                    &&& data@.len() - 4 < header_of(data@).table_len()
                },
            },
    {
        if data.len() < 4 {
            return Err(FontError::TooShort);
        }
        let magic = [data[0], data[1]];
        if data[0] != MAGIC_0 || data[1] != MAGIC_1 {
            return Err(FontError::BadMagic(magic));
        }
        let header = ScreenFontHeader {
            magic,
            font_mode: FontMode::from_bits(data[2]),
            character_size: data[3],
        };
        let count = header.glyph_count();
        assert(count * (header.character_size as usize) <= 512 * 255) by (nonlinear_arith)
            requires
                count <= 512,
        ;
        let table_len = count * (header.character_size as usize);
        if data.len() - 4 < table_len {
            return Err(FontError::Truncated);
        }
        let font_data = vstd::slice::slice_subrange(data, 4, data.len());
        proof {
            assert(header == header_of(data@));
        }
        Ok(ScreenFont { header, font_data })
    }

    pub fn header(&self) -> (r: ScreenFontHeader)
        ensures
            r == self@.0,
    {
        self.header
    }

    /// The bytes after the header, the glyph table first.
    pub fn font_data(&self) -> (r: &'static [u8])
        ensures
            r@ == self@.1,
    {
        self.font_data
    }

    pub fn character_size(&self) -> (r: u8)
        ensures
            r == self@.0.character_size,
    {
        self.header.character_size
    }

    /// Row `row` of the glyph for byte `index`.
    pub fn glyph_row(&self, index: u8, row: usize) -> (r: u8)
        requires
            self.wf(),
            row < self.character_size_spec(),
        ensures
            r == self.glyph_row_spec(index as int, row as int),
            r == self.glyph_rows(index as int)[row as int],
    {
        let cs = self.header.character_size as usize;
        proof {
            self.lemma_glyph_in_table(index as int);
            let c = self@.0.glyph_count_spec() as int;
            assert(c >= 256);
            assert((index as int) * (cs as int) + row < c * cs) by (nonlinear_arith)
                requires
                    index < 256,
                    c >= 256,
                    row < cs,
            ;
            assert((index as int) * (cs as int) <= 255 * 255) by (nonlinear_arith)
                requires
                    index < 256,
                    cs < 256,
            ;
        }
        self.font_data[index as usize * cs + row]
    }
}

} // verus!
