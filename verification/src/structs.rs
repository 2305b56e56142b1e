//! Value types carried by commands: coordinates, colours and drawing modes.

use vstd::prelude::*;
use vstd::std_specs::convert::FromSpecImpl;
use vstd::std_specs::convert::TryFromSpecImpl;

verus! {

/// Number of entries in a palette table.
pub const PALETTE_SIZE: usize = 16;

/// Number of distinct hardware colours.
pub const EGA_COLORS: u8 = 64;

/// An unsigned (x, y) pair of integers.
#[derive(Clone, Copy, Debug, PartialEq, Eq, Structural)]
pub struct XY {
    pub x: u32,
    pub y: u32,
}

impl View for XY {
    type V = XY;

    open spec fn view(&self) -> XY {
        *self
    }
}

/// An index into the sixteen-entry palette table.
#[derive(Clone, Copy, Debug, PartialEq, Eq)]
pub struct PaletteColor(u8);

impl View for PaletteColor {
    type V = nat;

    closed spec fn view(&self) -> nat {
        (self.0 % 16) as nat
    }
}

impl PaletteColor {
    /// An index is always below sixteen.
    pub proof fn lemma_in_range(self)
        ensures
            self@ < 16,
    {
    }

    #[verifier::type_invariant]
    spec fn in_range(self) -> bool {
        self.0 < 16
    }

    /// The index with the given number.
    pub(crate) fn from_index(value: u8) -> (c: Self)
        requires
            value <= 15,
        ensures
            c@ == value as nat,
    {
        PaletteColor(value)
    }

    /// The index as a machine integer, always below sixteen.
    pub fn value(&self) -> (v: u8)
        ensures
            v as nat == self@,
            v < 16,
    {
        proof {
            use_type_invariant(self);
        }
        self.0
    }
}

impl TryFrom<u8> for PaletteColor {
    type Error = &'static str;

    /// Accepts exactly the values 0 to 15.
    fn try_from(value: u8) -> (r: Result<Self, Self::Error>)
        ensures
            r is Ok <==> value <= 15,
            r is Ok ==> r->Ok_0@ == value as nat,
    {
        if value <= 15 {
            Ok(PaletteColor(value))
        } else {
            Err("Palette colors must be in range 0..=15")
        }
    }
}

impl TryFromSpecImpl<u8> for PaletteColor {
    open spec fn obeys_try_from_spec() -> bool {
        true
    }

    closed spec fn try_from_spec(value: u8) -> Result<Self, &'static str> {
        if value <= 15 {
            Ok(PaletteColor(value))
        } else {
            Err("Palette colors must be in range 0..=15")
        }
    }
}

/// A six-bit hardware colour: two bits for each of red, green and blue.
#[derive(Clone, Copy, Debug, PartialEq, Eq)]
pub struct EGAColor(u8);

impl View for EGAColor {
    type V = nat;

    closed spec fn view(&self) -> nat {
        (self.0 % 64) as nat
    }
}

impl EGAColor {
    /// A hardware colour is always below sixty-four.
    pub proof fn lemma_in_range(self)
        ensures
            self@ < 64,
    {
    }

    #[verifier::type_invariant]
    spec fn in_range(self) -> bool {
        self.0 < 64
    }

    /// The colour with every bit clear: black.
    pub fn new() -> (c: Self)
        ensures
            c@ == 0,
    {
        EGAColor(0)
    }

    /// The colour with the given six-bit value.
    pub(crate) fn from_value(value: u8) -> (c: Self)
        requires
            value <= 63,
        ensures
            c@ == value as nat,
    {
        EGAColor(value)
    }

    /// The six-bit value as a machine integer, always below sixty-four.
    pub fn value(&self) -> (v: u8)
        ensures
            v as nat == self@,
            v < 64,
    {
        proof {
            use_type_invariant(self);
        }
        self.0
    }
}

impl TryFrom<u8> for EGAColor {
    type Error = &'static str;

    /// Accepts exactly the values 0 to 63.
    fn try_from(value: u8) -> (r: Result<Self, Self::Error>)
        ensures
            r is Ok <==> value <= 63,
            r is Ok ==> r->Ok_0@ == value as nat,
    {
        if value <= 63 {
            Ok(EGAColor(value))
        } else {
            Err("EGA colors must be in range 0..=63")
        }
    }
}

impl TryFromSpecImpl<u8> for EGAColor {
    open spec fn obeys_try_from_spec() -> bool {
        true
    }

    closed spec fn try_from_spec(value: u8) -> Result<Self, &'static str> {
        if value <= 63 {
            Ok(EGAColor(value))
        } else {
            Err("EGA colors must be in range 0..=63")
        }
    }
}

/// A displayable colour with eight bits per channel.
#[derive(Clone, Copy, Debug, PartialEq, Eq, Structural)]
pub struct Rgb {
    pub r: u8,
    pub g: u8,
    pub b: u8,
}

/// Intensity of one channel given its low and its high bit: each two-bit
/// channel value is repeated four times to fill a byte.
pub open spec fn channel(low: nat, high: nat) -> nat {
    85 * (low + 2 * high)
}

/// The displayable colour of a six-bit value. Bits 5, 4 and 3 are the low
/// bits of red, green and blue; bits 2, 1 and 0 are their high bits.
pub open spec fn rgb_of(v: nat) -> Rgb {
    Rgb {
        r: channel((v / 32) % 2, (v / 4) % 2) as u8,
        g: channel((v / 16) % 2, (v / 2) % 2) as u8,
        b: channel((v / 8) % 2, v % 2) as u8,
    }
}

/// Every channel of a converted colour takes one of four levels.
pub proof fn lemma_rgb_levels(v: nat)
    ensures
        ({
            let c = rgb_of(v);
            &&& c.r == 0 || c.r == 85 || c.r == 170 || c.r == 255
            &&& c.g == 0 || c.g == 85 || c.g == 170 || c.g == 255
            &&& c.b == 0 || c.b == 85 || c.b == 170 || c.b == 255
        }),
{
}

/// The conversion is a function of the six-bit value: two colours with the
/// same value convert to the same triple, however often it is asked.
pub proof fn lemma_conversion_is_a_function(a: EGAColor, b: EGAColor)
    requires
        a@ == b@,
    ensures
        <Rgb as vstd::std_specs::convert::FromSpec<EGAColor>>::from_spec(a) == <Rgb as vstd::std_specs::convert::FromSpec<EGAColor>>::from_spec(b),
        rgb_of(a@) == rgb_of(b@),
{
}

impl From<EGAColor> for Rgb {
    /// Expands a hardware colour to eight bits per channel.
    fn from(value: EGAColor) -> (c: Rgb)
        ensures
            c == rgb_of(value@),
    {
        let index: u8 = value.value();
        let r0: u8 = index >> 5 & 1;
        let g0: u8 = index >> 4 & 1;
        let b0: u8 = index >> 3 & 1;
        let r1: u8 = index >> 1 & 2;
        let g1: u8 = index & 2;
        let b1: u8 = index << 1 & 2;
        assert(r0 == (index / 32) % 2 && g0 == (index / 16) % 2 && b0 == (index / 8) % 2)
            by (bit_vector)
            requires
                index < 64,
                r0 == index >> 5 & 1,
                g0 == index >> 4 & 1,
                b0 == index >> 3 & 1,
        ;
        assert(r1 == 2 * ((index / 4) % 2) && g1 == 2 * ((index / 2) % 2) && b1 == 2 * (index % 2))
            by (bit_vector)
            requires
                index < 64,
                r1 == index >> 1 & 2,
                g1 == index & 2,
                b1 == index << 1 & 2,
        ;
        let r: u8 = 0x55 * (r0 + r1);
        let g: u8 = 0x55 * (g0 + g1);
        let b: u8 = 0x55 * (b0 + b1);
        Rgb { r, g, b }
    }
}

impl FromSpecImpl<EGAColor> for Rgb {
    open spec fn obeys_from_spec() -> bool {
        true
    }

    open spec fn from_spec(value: EGAColor) -> Rgb {
        rgb_of(value@)
    }
}

/// How drawn pixels combine with what is already on the surface.
#[derive(Clone, Copy, Debug, PartialEq, Eq, Structural)]
pub enum WriteMode {
    Normal,
    Xor,
}

impl View for WriteMode {
    type V = WriteMode;

    open spec fn view(&self) -> WriteMode {
        *self
    }
}

impl TryFrom<u32> for WriteMode {
    type Error = &'static str;

    /// Zero is `Normal`, one is `Xor`, anything else is refused.
    fn try_from(value: u32) -> (r: Result<Self, Self::Error>)
        ensures
            r is Ok <==> value <= 1,
            value == 0 ==> r == Ok::<WriteMode, &'static str>(WriteMode::Normal),
            value == 1 ==> r == Ok::<WriteMode, &'static str>(WriteMode::Xor),
    {
        if value == 0 {
            Ok(WriteMode::Normal)
        } else if value == 1 {
            Ok(WriteMode::Xor)
        } else {
            Err("Write mode must be 0 or 1")
        }
    }
}

impl TryFromSpecImpl<u32> for WriteMode {
    open spec fn obeys_try_from_spec() -> bool {
        true
    }

    open spec fn try_from_spec(value: u32) -> Result<Self, &'static str> {
        if value == 0 {
            Ok(WriteMode::Normal)
        } else if value == 1 {
            Ok(WriteMode::Xor)
        } else {
            Err("Write mode must be 0 or 1")
        }
    }
}

/// Character cell size of a text window.
#[derive(Clone, Copy, Debug, PartialEq, Eq, Structural)]
pub enum FontSize {
    Size8x8,
    Size7x8,
    Size8x14,
    Size7x14,
    Size16x14,
}

impl View for FontSize {
    type V = FontSize;

    open spec fn view(&self) -> FontSize {
        *self
    }
}

/// The cell size that a number selects, if it selects one.
pub open spec fn font_size_of(n: nat) -> Option<FontSize> {
    if n == 0 {
        Some(FontSize::Size8x8)
    } else if n == 1 {
        Some(FontSize::Size7x8)
    } else if n == 2 {
        Some(FontSize::Size8x14)
    } else if n == 3 {
        Some(FontSize::Size7x14)
    } else if n == 4 {
        Some(FontSize::Size16x14)
    } else {
        None
    }
}

impl TryFrom<u32> for FontSize {
    type Error = &'static str;

    /// Maps 0 to 4 onto the five cell sizes in declaration order.
    fn try_from(value: u32) -> (r: Result<Self, Self::Error>)
        ensures
            match r {
                Ok(size) => font_size_of(value as nat) == Some(size),
                Err(_) => font_size_of(value as nat) is None,
            },
    {
        if value == 0 {
            Ok(FontSize::Size8x8)
        } else if value == 1 {
            Ok(FontSize::Size7x8)
        } else if value == 2 {
            Ok(FontSize::Size8x14)
        } else if value == 3 {
            Ok(FontSize::Size7x14)
        } else if value == 4 {
            Ok(FontSize::Size16x14)
        } else {
            Err("Font size must be in range 0..=4")
        }
    }
}

impl TryFromSpecImpl<u32> for FontSize {
    open spec fn obeys_try_from_spec() -> bool {
        true
    }

    open spec fn try_from_spec(value: u32) -> Result<Self, &'static str> {
        match font_size_of(value as nat) {
            Some(size) => Ok(size),
            None => Err("Font size must be in range 0..=4"),
        }
    }
}

/// Typeface used for drawn text.
#[derive(Clone, Copy, Debug, PartialEq, Eq, Structural)]
pub enum Font {
    Default,
    Triplex,
    Small,
    SansSerif,
    Gothic,
    Script,
    Simplex,
    TriplexScript,
    Complex,
    European,
    Bold,
}

/// Direction in which drawn text runs.
#[derive(Clone, Copy, Debug, PartialEq, Eq, Structural)]
pub enum FontDirection {
    Horizontal,
    Vertical,
}

/// Dash pattern of drawn lines.
#[derive(Clone, Copy, Debug, PartialEq, Eq, Structural)]
pub enum LineStyle {
    Solid,
    Dotted,
    Centered,
    Dashed,
    Custom,
}

/// Predefined pattern used to fill areas.
#[derive(Clone, Copy, Debug, PartialEq, Eq, Structural)]
pub enum FillPattern {
    Background,
    Solid,
    Line,
    LightSlash,
    NormalSlash,
    NormalBackslash,
    LightBackslash,
    LightHatch,
    HeavyCrossHatch,
    InterleavingLine,
    WidelySpacedDot,
    CloselySpacedDot,
}

/// How a pasted image combines with the surface.
#[derive(Clone, Copy, Debug, PartialEq, Eq, Structural)]
pub enum PasteMode {
    Copy,
    Xor,
    Or,
    And,
    Not,
}

/// Where a button label sits relative to its button.
#[derive(Clone, Copy, Debug, PartialEq, Eq, Structural)]
pub enum LabelOrientation {
    Above,
    Left,
    Center,
    Right,
    Beneath,
}

/// When a query is carried out.
#[derive(Clone, Copy, Debug, PartialEq, Eq, Structural)]
pub enum QueryMode {
    Now,
    GraphicsClicked,
    TextClicked,
}

/// How much a file query reports.
#[derive(Clone, Copy, Debug, PartialEq, Eq, Structural)]
pub enum FileQueryMode {
    Basic,
    BasicCR,
    FileSize,
    Extended,
    ExtendedPeriod,
}

/// Direction of a block transfer.
#[derive(Clone, Copy, Debug, PartialEq, Eq, Structural)]
pub enum BlockMode {
    Download,
    Upload,
}

/// File-transfer protocol of a block transfer.
#[derive(Clone, Copy, Debug, PartialEq, Eq, Structural)]
pub enum Protocol {
    XmodemChecksum,
    XmodemCrc,
    Xmodem1k,
    Xmodem1kG,
    Kermit,
    YmodemBatch,
    YmodemG,
    Zmodem,
}

/// Kind of file moved by a block transfer.
#[derive(Clone, Copy, Debug, PartialEq, Eq, Structural)]
pub enum FileType {
    RipDisplay,
    RipStore,
    Icn,
    Hlp,
    Composite,
    Active,
}

} // verus!
