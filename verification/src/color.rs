//! Colours: the fifteen-bit colour of the bitmap surface and the palette index of a tile.

use vstd::prelude::*;

verus! {

/// The three channels of a colour as numbers: red, green, blue.
pub type Channels = (int, int, int);

/// The sixteen-bit word that holds the channels: red in the low five bits,
/// green in the next five, blue in the five above them.
pub open spec fn pack(ch: Channels) -> int {
    ch.0 + 32 * ch.1 + 1024 * ch.2
}

/// The channels that a sixteen-bit word holds. Its top bit is ignored.
pub open spec fn unpack(raw: int) -> Channels {
    (raw % 32, (raw / 32) % 32, (raw / 1024) % 32)
}

/// Whether each channel fits in five bits.
pub open spec fn channels_in_range(ch: Channels) -> bool {
    0 <= ch.0 < 32 && 0 <= ch.1 < 32 && 0 <= ch.2 < 32
}

/// A colour with five bits for each of blue, green and red.
#[derive(Clone, Copy, Debug, PartialEq, Eq, Structural)]
pub struct Bgr555 {
    r: u8,
    g: u8,
    b: u8,
}

impl View for Bgr555 {
    type V = Channels;

    closed spec fn view(&self) -> Channels {
        (self.r as int, self.g as int, self.b as int)
    }
}

impl Bgr555 {
    /// Every channel is at most 31.
    #[verifier::type_invariant]
    pub closed spec fn wf(self) -> bool {
        self.r <= 31 && self.g <= 31 && self.b <= 31
    }

    /// Makes a colour from its channels. Of a channel above 31 only the low
    /// five bits count.
    pub fn new(r: u8, g: u8, b: u8) -> (c: Bgr555)
        ensures
            c.wf(),
            c@ == (r as int % 32, g as int % 32, b as int % 32),
    {
        assert(r & 31 == r % 32 && g & 31 == g % 32 && b & 31 == b % 32) by (bit_vector);
        Bgr555 { r: r & 31, g: g & 31, b: b & 31 }
    }

    /// The red channel.
    pub fn r(&self) -> (r: u8)
        ensures
            r == self@.0,
    {
        self.r
    }

    /// The green channel.
    pub fn g(&self) -> (g: u8)
        ensures
            g == self@.1,
    {
        self.g
    }

    /// The blue channel.
    pub fn b(&self) -> (b: u8)
        ensures
            b == self@.2,
    {
        self.b
    }

    /// The colour as the hardware stores it.
    pub fn into_storage(self) -> (raw: u16)
        ensures
            raw == pack(self@),
            raw < 0x8000,
    {
        proof {
            use_type_invariant(&self);
        }
        let r: u16 = self.r as u16;
        let g: u16 = self.g as u16;
        let b: u16 = self.b as u16;
        assert(r | (g << 5) | (b << 10) == r + 32 * g + 1024 * b) by (bit_vector)
            requires
                r <= 31,
                g <= 31,
                b <= 31,
        ;
        r | (g << 5) | (b << 10)
    }

    /// The colour that a stored word stands for. The word's top bit is ignored.
    pub fn from_storage(raw: u16) -> (c: Bgr555)
        ensures
            c.wf(),
            c@ == unpack(raw as int),
    {
        assert((raw & 31) as u8 == raw % 32 && ((raw >> 5) & 31) as u8 == (raw / 32) % 32 && ((raw >> 10)
            & 31) as u8 == (raw / 1024) % 32) by (bit_vector);
        Bgr555 { r: (raw & 31) as u8, g: ((raw >> 5) & 31) as u8, b: ((raw >> 10) & 31) as u8 }
    }

    /// No light at all.
    pub fn black() -> (c: Bgr555)
        ensures
            c.wf(),
            c@ == (0int, 0int, 0int),
    {
        Bgr555 { r: 0, g: 0, b: 0 }
    }

    /// Full red.
    pub fn red() -> (c: Bgr555)
        ensures
            c.wf(),
            c@ == (31int, 0int, 0int),
    {
        Bgr555 { r: 31, g: 0, b: 0 }
    }

    /// Full green.
    pub fn green() -> (c: Bgr555)
        ensures
            c.wf(),
            c@ == (0int, 31int, 0int),
    {
        Bgr555 { r: 0, g: 31, b: 0 }
    }

    /// Full blue.
    pub fn blue() -> (c: Bgr555)
        ensures
            c.wf(),
            c@ == (0int, 0int, 31int),
    {
        Bgr555 { r: 0, g: 0, b: 31 }
    }

    /// Full red and green.
    pub fn yellow() -> (c: Bgr555)
        ensures
            c.wf(),
            c@ == (31int, 31int, 0int),
    {
        Bgr555 { r: 31, g: 31, b: 0 }
    }

    /// Full red and blue.
    pub fn magenta() -> (c: Bgr555)
        ensures
            c.wf(),
            c@ == (31int, 0int, 31int),
    {
        Bgr555 { r: 31, g: 0, b: 31 }
    }

    /// Full green and blue.
    pub fn cyan() -> (c: Bgr555)
        ensures
            c.wf(),
            c@ == (0int, 31int, 31int),
    {
        Bgr555 { r: 0, g: 31, b: 31 }
    }

    /// Every channel full.
    pub fn white() -> (c: Bgr555)
        ensures
            c.wf(),
            c@ == (31int, 31int, 31int),
    {
        Bgr555 { r: 31, g: 31, b: 31 }
    }

    /// A valid colour has every channel in five bits.
    pub proof fn lemma_channels_in_range(self)
        requires
            self.wf(),
        ensures
            channels_in_range(self@),
    {
    }

    /// Two colours with the same channels are the same colour.
    pub proof fn lemma_view_injective(self, other: Bgr555)
        requires
            self@ == other@,
        ensures
            self == other,
    {
    }
}

/// Packing channels that fit in five bits and unpacking the word gives the
/// channels back, and the word fits in fifteen bits.
pub proof fn lemma_unpack_pack(ch: Channels)
    requires
        channels_in_range(ch),
    ensures
        unpack(pack(ch)) == ch,
        0 <= pack(ch) < 0x8000,
{
}

/// Unpacking a word and packing the channels gives the word's low fifteen bits.
pub proof fn lemma_pack_unpack(raw: u16)
    ensures
        channels_in_range(unpack(raw as int)),
        pack(unpack(raw as int)) == raw as int % 0x8000,
{
}

/// Storing a colour and reading the stored word back gives the same colour:
/// whatever `from_storage` returns for the word that `into_storage` returned
/// is the colour that was stored.
pub proof fn lemma_storage_round_trip(c: Bgr555, back: Bgr555)
    requires
        c.wf(),
        back@ == unpack(pack(c@)),
    ensures
        back == c,
{
    c.lemma_channels_in_range();
    lemma_unpack_pack(c@);
    c.lemma_view_injective(back);
}

/// An index into the 256-entry palette of a tile surface. Index 0 shows
/// nothing: what lies behind the tile stays visible.
#[derive(Clone, Copy, Debug, PartialEq, Eq, Structural)]
pub struct PaletteColor(u8);

impl View for PaletteColor {
    type V = u8;

    closed spec fn view(&self) -> u8 {
        self.0
    }
}

impl PaletteColor {
    /// The colour of the palette entry `index`.
    pub fn new(index: u8) -> (c: PaletteColor)
        ensures
            c@ == index,
    {
        PaletteColor(index)
    }

    /// The entry that shows nothing.
    pub fn transparent() -> (c: PaletteColor)
        ensures
            c@ == 0,
    {
        PaletteColor(0)
    }

    /// The index as a tile stores it.
    pub fn into_storage(self) -> (index: u8)
        ensures
            index == self@,
    {
        self.0
    }

    /// Whether this is the entry that shows nothing.
    pub fn is_transparent(self) -> (t: bool)
        ensures
            t == (self@ == 0),
    {
        self.0 == 0
    }

    /// Two palette colours with the same index are the same colour.
    pub proof fn lemma_view_injective(self, other: PaletteColor)
        requires
            self@ == other@,
        ensures
            self == other,
    {
    }
}

} // verus!
