use vstd::prelude::*;

verus! {

/// The packed 32-bit value of an opaque colour: bytes `[0xFF, red, green, blue]`,
/// most significant first.
pub open spec fn argb(red: u8, green: u8, blue: u8) -> u32 {
    (0xff000000u32 | ((red as u32) << 16u32) | ((green as u32) << 8u32) | (blue as u32)) as u32
}

/// One framebuffer pixel, as the 32-bit value the display reads.
#[derive(Clone, Copy, Debug, PartialEq, Eq)]
pub struct Colour {
    value: u32,
}

impl View for Colour {
    type V = u32;

    closed spec fn view(&self) -> u32 {
        self.value
    }
}

/// Packed values of the named colours, for [`Colour::new`].
pub const WHITE: u32 = 0xffffffff;

pub const RED: u32 = 0xffff0000;

pub const GREEN: u32 = 0xff00ff00;

pub const BLUE: u32 = 0xff0000ff;

pub const CYAN: u32 = 0xff00ffff;

pub const MAGENTA: u32 = 0xffff00ff;

pub const YELLOW: u32 = 0xffffff00;

pub const BLACK: u32 = 0xff000000;

impl Colour {
    /// The colour with the given packed value.
    pub fn new(value: u32) -> (r: Self)
        ensures
            r@ == value,
    {
        Colour { value }
    }

    /// The opaque colour with the given components.
    pub fn from_rgb(red: u8, green: u8, blue: u8) -> (r: Self)
        ensures
            r@ == argb(red, green, blue),
            r@ == 0xff00_0000 + red as int * 0x1_0000 + green as int * 0x100 + blue as int,
    {
        let value = 0xff000000u32 | ((red as u32) << 16u32) | ((green as u32) << 8u32) | (
        blue as u32);
        proof {
            lemma_argb_arith(red, green, blue);
        }
        Colour { value }
    }

    /// The packed value.
    pub fn value(&self) -> (r: u32)
        ensures
            r == self@,
    {
        self.value
    }

    /// The four bytes of the packed value, most significant first: `[0xFF, R, G, B]`
    /// for a colour made by [`Colour::from_rgb`].
    pub fn to_be_bytes(&self) -> (r: [u8; 4])
        ensures
            r@ == seq![
                (self@ >> 24u32) as u8,
                ((self@ >> 16u32) & 0xff) as u8,
                ((self@ >> 8u32) & 0xff) as u8,
                (self@ & 0xff) as u8,
            ],
    {
        [
            (self.value >> 24u32) as u8,
            ((self.value >> 16u32) & 0xff) as u8,
            ((self.value >> 8u32) & 0xff) as u8,
            (self.value & 0xff) as u8,
        ]
    }
}

proof fn lemma_argb_arith(red: u8, green: u8, blue: u8)
    ensures
        argb(red, green, blue) == 0xff00_0000 + red as int * 0x1_0000 + green as int * 0x100
            + blue as int,
{
    let (r, g, b) = (red as u32, green as u32, blue as u32);
    assert(r < 256 && g < 256 && b < 256);
    assert((0xff000000u32 | (r << 16u32) | (g << 8u32) | b) == 0xff000000u32 + r * 0x10000u32
        + g * 0x100u32 + b) by (bit_vector)
        requires
            r < 256,
            g < 256,
            b < 256,
    ;
}

} // verus!
