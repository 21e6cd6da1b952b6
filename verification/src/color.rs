use vstd::prelude::*;

verus! {

/// One pixel: the intensities of its red, green and blue channels.
#[derive(Clone, Copy, Debug, PartialEq, Eq, Structural)]
pub struct Rgb {
    pub r: u8,
    pub g: u8,
    pub b: u8,
}

impl Rgb {
    /// A pixel that emits no light.
    pub open spec fn dark() -> Rgb {
        Rgb { r: 0, g: 0, b: 0 }
    }

    /// A pixel with the given channel intensities.
    pub fn new(r: u8, g: u8, b: u8) -> (out: Rgb)
        ensures
            out == (Rgb { r, g, b }),
    {
        Rgb { r, g, b }
    }

    /// The pixel that emits no light.
    pub fn black() -> (out: Rgb)
        ensures
            out == Rgb::dark(),
    {
        Rgb { r: 0, g: 0, b: 0 }
    }
}

/// The brightest luma level; levels run from zero up to this one.
pub const MAX_LUMA: usize = 5;

/// Number of palette entries; codes from this one upwards are dark.
pub const PALETTE_SIZE: usize = 26;

/// Full-brightness channel triples, indexed by colour code.
pub const PALETTE: [(u8, u8, u8); 26] = [
    (0xff, 0xff, 0xff),
    (0xff, 0x00, 0x00),
    (0x00, 0xff, 0x00),
    (0x00, 0x00, 0xff),
    (0xd3, 0x2f, 0x2f),
    (0x8b, 0xc3, 0x4a),
    (0x03, 0xa9, 0xf4),
    (0xff, 0x98, 0x00),
    (0x4d, 0xd0, 0xe1),
    (0x8c, 0x17, 0xe0),
    (0xff, 0x57, 0x22),
    (0x00, 0x96, 0x88),
    (0x9c, 0x27, 0xb0),
    (0xff, 0xeb, 0x3b),
    (0x3f, 0x51, 0xb5),
    (0xe9, 0x1e, 0x63),
    (0x03, 0x07, 0x1e),
    (0x37, 0x0f, 0x00),
    (0x6a, 0x0f, 0x00),
    (0x9d, 0x0f, 0x00),
    (0xd0, 0x0f, 0x00),
    (0x6d, 0x2f, 0x00),
    (0x7d, 0x3f, 0x10),
    (0x94, 0x4f, 0x00),
    (0xaa, 0x2f, 0x00),
    (0x00, 0x00, 0x00),
];

/// What an indexed colour is: a palette code and a luma level.
pub struct ColorModel {
    pub code: int,
    pub luma: int,
}

impl ColorModel {
    /// The code fits a machine word and the luma is one of the six levels.
    pub open spec fn valid(self) -> bool {
        0 <= self.code <= usize::MAX && 0 <= self.luma <= MAX_LUMA
    }

    /// The reserved colour that stands for "no light".
    pub open spec fn off() -> ColorModel {
        ColorModel { code: usize::MAX as int, luma: 0 }
    }

    /// Pure red at the lowest luma.
    pub open spec fn red() -> ColorModel {
        ColorModel { code: 1, luma: 0 }
    }

    /// The colour every state starts from.
    pub open spec fn initial() -> ColorModel {
        ColorModel { code: 0, luma: 0 }
    }

    pub open spec fn with_code(self, code: int) -> ColorModel {
        ColorModel { code, luma: self.luma }
    }

    pub open spec fn with_luma(self, luma: int) -> ColorModel {
        ColorModel { code: self.code, luma }
    }

    /// One luma level brighter, saturating at the brightest.
    pub open spec fn brighter(self) -> ColorModel {
        self.with_luma(if self.luma < MAX_LUMA { self.luma + 1 } else { self.luma })
    }

    /// One luma level dimmer, saturating at zero.
    pub open spec fn dimmer(self) -> ColorModel {
        self.with_luma(if self.luma > 0 { self.luma - 1 } else { self.luma })
    }

    /// How many bits each channel is shifted right at this luma.
    pub open spec fn shift(self) -> u8 {
        (MAX_LUMA - self.luma) as u8
    }

    /// The pixel this colour lights: dark for a code outside the palette,
    /// otherwise the palette entry with every channel shifted right.
    pub open spec fn rgb(self) -> Rgb {
        if self.code >= PALETTE_SIZE {
            Rgb::dark()
        } else {
            let entry = PALETTE[self.code];
            Rgb {
                r: entry.0 >> self.shift(),
                g: entry.1 >> self.shift(),
                b: entry.2 >> self.shift(),
            }
        }
    }
}

/// A palette code together with a luma level.
#[derive(Clone, Copy, Debug)]
pub struct IndexedColor {
    code: usize,
    luma: usize,
}

impl View for IndexedColor {
    type V = ColorModel;

    closed spec fn view(&self) -> ColorModel {
        ColorModel { code: self.code as int, luma: self.luma as int }
    }
}

impl Default for IndexedColor {
    fn default() -> (color: Self)
        ensures
            color@ == ColorModel::initial(),
    {
        IndexedColor { code: 0, luma: 0 }
    }
}

impl IndexedColor {
    /// Holds of every colour value a program can hold.
    #[verifier::type_invariant]
    pub open spec fn in_range(self) -> bool {
        self@.valid()
    }

    /// The reserved colour that stands for "no light".
    pub fn off() -> (color: Self)
        ensures
            color@ == ColorModel::off(),
    {
        IndexedColor { code: usize::MAX, luma: 0 }
    }

    /// Pure red at the lowest luma.
    pub fn red() -> (color: Self)
        ensures
            color@ == ColorModel::red(),
    {
        IndexedColor { code: 1, luma: 0 }
    }

    pub fn code(&self) -> (code: usize)
        ensures
            code == self@.code,
    {
        self.code
    }

    pub fn luma(&self) -> (luma: usize)
        ensures
            luma == self@.luma,
            luma <= MAX_LUMA,
            self@.valid(),
    {
        proof {
            use_type_invariant(self);
        }
        self.luma
    }

    pub fn with_code(&self, code: usize) -> (color: Self)
        ensures
            color@ == self@.with_code(code as int),
    {
        proof {
            use_type_invariant(self);
        }
        IndexedColor { code, luma: self.luma }
    }

    pub fn with_luma(&self, luma: usize) -> (color: Self)
        requires
            luma <= MAX_LUMA,
        ensures
            color@ == self@.with_luma(luma as int),
    {
        IndexedColor { luma, code: self.code }
    }

    /// The pixel this colour lights.
    pub fn rgb(&self) -> (pixel: Rgb)
        ensures
            pixel == self@.rgb(),
    {
        proof {
            use_type_invariant(self);
        }
        if self.code >= PALETTE_SIZE {
            return Rgb::black();
        }
        let (r, g, b) = PALETTE[self.code];
        let shift: u8 = (MAX_LUMA - self.luma) as u8;
        Rgb::new(r >> shift, g >> shift, b >> shift)
    }
}

impl From<IndexedColor> for Rgb {
    fn from(color: IndexedColor) -> (pixel: Rgb) {
        color.rgb()
    }
}

impl vstd::std_specs::convert::FromSpecImpl<IndexedColor> for Rgb {
    open spec fn obeys_from_spec() -> bool {
        true
    }

    open spec fn from_spec(color: IndexedColor) -> Rgb {
        color@.rgb()
    }
}

} // verus!
