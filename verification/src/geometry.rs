use vstd::prelude::*;

verus! {

/// A rectangle given by its four edges, in physical pixels.
#[derive(Clone, Copy, Debug, PartialEq, Eq, Structural)]
pub struct Rect {
    pub left: i32,
    pub top: i32,
    pub right: i32,
    pub bottom: i32,
}

impl Rect {
    /// Width of the rectangle as a mathematical integer.
    pub open spec fn spec_width(self) -> int {
        self.right - self.left
    }

    /// Height of the rectangle as a mathematical integer.
    pub open spec fn spec_height(self) -> int {
        self.bottom - self.top
    }

    /// Whether width and height both fit in an `i32`.
    pub open spec fn has_i32_size(self) -> bool {
        &&& i32::MIN <= self.spec_width() <= i32::MAX
        &&& i32::MIN <= self.spec_height() <= i32::MAX
    }

    /// Creates a rectangle from its left, top, right and bottom edges.
    pub fn from_ltrb(left: i32, top: i32, right: i32, bottom: i32) -> (r: Rect)
        ensures
            r == (Rect { left, top, right, bottom }),
    {
        Rect { left, top, right, bottom }
    }

    /// The x-coordinate of the left edge.
    pub fn x(&self) -> (r: i32)
        ensures
            r == self.left,
    {
        self.left
    }

    /// The y-coordinate of the top edge.
    pub fn y(&self) -> (r: i32)
        ensures
            r == self.top,
    {
        self.top
    }

    /// The width, `right - left`.
    pub fn width(&self) -> (r: i32)
        requires
            i32::MIN <= self.spec_width() <= i32::MAX,
        ensures
            r == self.spec_width(),
    {
        self.right - self.left
    }

    /// The height, `bottom - top`.
    pub fn height(&self) -> (r: i32)
        requires
            i32::MIN <= self.spec_height() <= i32::MAX,
        ensures
            r == self.spec_height(),
    {
        self.bottom - self.top
    }
}

/// Unit of a length.
#[derive(Clone, Copy, Debug, PartialEq, Eq, Structural)]
pub enum LengthUnit {
    Pixel,
    Percentage,
}

/// A length: an amount in some unit.
#[derive(Clone, Copy, Debug, PartialEq, Eq, Structural)]
pub struct LengthValue {
    pub amount: i32,
    pub unit: LengthUnit,
}

impl LengthValue {
    /// A length of `px` pixels.
    pub open spec fn from_px_spec(px: i32) -> LengthValue {
        LengthValue { amount: px, unit: LengthUnit::Pixel }
    }

    /// A length of `px` pixels.
    pub fn from_px(px: i32) -> (r: LengthValue)
        ensures
            r == Self::from_px_spec(px),
    {
        LengthValue { amount: px, unit: LengthUnit::Pixel }
    }
}

/// Amounts by which the four edges of a rectangle differ from another's.
#[derive(Clone, Copy, Debug, PartialEq, Eq, Structural)]
pub struct RectDelta {
    pub left: LengthValue,
    pub top: LengthValue,
    pub right: LengthValue,
    pub bottom: LengthValue,
}

impl RectDelta {
    /// Creates a delta from its four edges.
    pub fn new(left: LengthValue, top: LengthValue, right: LengthValue, bottom: LengthValue) -> (r:
        RectDelta)
        ensures
            r == (RectDelta { left, top, right, bottom }),
    {
        RectDelta { left, top, right, bottom }
    }
}

/// An opacity, held as an alpha value from 0 (transparent) to 255 (opaque).
#[derive(Clone, Copy, Debug, PartialEq, Eq, Structural)]
pub struct OpacityValue {
    pub alpha: u8,
}

impl OpacityValue {
    /// The opacity with alpha value `alpha`.
    pub fn from_alpha(alpha: u8) -> (r: OpacityValue)
        ensures
            r.alpha == alpha,
    {
        OpacityValue { alpha }
    }

    /// The alpha value of this opacity.
    pub fn to_alpha(&self) -> (r: u8)
        ensures
            r == self.alpha,
    {
        self.alpha
    }
}

/// A signed change of some amount.
#[derive(Clone, Copy, Debug, PartialEq, Eq, Structural)]
pub struct Delta<T> {
    pub inner: T,
    pub is_negative: bool,
}

/// A colour with red, green, blue and alpha channels.
#[derive(Clone, Copy, Debug, PartialEq, Eq, Structural)]
pub struct Color {
    pub r: u8,
    pub g: u8,
    pub b: u8,
    pub a: u8,
}

impl Color {
    /// The colour as a `COLORREF` value: `0x00BBGGRR`.
    pub open spec fn spec_bgr(self) -> int {
        self.b * 0x10000 + self.g * 0x100 + self.r
    }

    /// The colour as a `COLORREF` value: blue in bits 16 to 23, green in
    /// bits 8 to 15, red in bits 0 to 7.
    pub fn to_bgr(&self) -> (r: u32)
        ensures
            r == self.spec_bgr(),
    {
        let r = self.r as u32;
        let g = self.g as u32;
        let b = self.b as u32;
        assert((b << 16u32) | (g << 8u32) | r == b * 0x10000 + g * 0x100 + r) by (bit_vector)
            requires
                r < 256,
                g < 256,
                b < 256,
        ;
        (b << 16u32) | (g << 8u32) | r
    }
}

/// Every `COLORREF` value of a colour is below `0x0100_0000`.
pub proof fn lemma_bgr_bound(c: Color)
    ensures
        0 <= c.spec_bgr() < 0x0100_0000,
{
}

} // verus!
