use vstd::prelude::*;

verus! {

/// An RGBA colour. `a` is the alpha channel: `0` is transparent, `255` opaque.
#[derive(Debug, Clone, Copy, PartialEq, Eq, Structural, Hash)]
pub struct HexColor {
    pub r: u8,
    pub g: u8,
    pub b: u8,
    pub a: u8,
}

/// The upper-case hexadecimal digit for `d` (`0 <= d < 16`).
pub open spec fn hex_digit(d: nat) -> char {
    if d < 10 {
        (48 + d) as char
    } else {
        (55 + d) as char
    }
}

/// Two upper-case hexadecimal digits for a byte.
pub open spec fn hex_byte(v: u8) -> Seq<char> {
    seq![hex_digit((v / 16) as nat), hex_digit((v % 16) as nat)]
}

/// The `#RRGGBB` text of a colour (the alpha channel is not shown).
pub open spec fn hex_rgb_text(c: HexColor) -> Seq<char> {
    seq!['#'] + hex_byte(c.r) + hex_byte(c.g) + hex_byte(c.b)
}

/// `hex_color::HexColor`'s `Display` impl: writes `#` followed by the red,
/// green and blue channels as two upper-case hexadecimal digits each
/// (`write!(f, "#{r:02X}{g:02X}{b:02X}")`); the alpha channel is only written
/// with the alternate flag, which is not used here.
#[verifier::external_body]
fn hex_color_display(r: u8, g: u8, b: u8, a: u8) -> (s: String)
    ensures
        s@ == hex_rgb_text(HexColor { r, g, b, a }),
{
    format!("{}", hex_color::HexColor::rgba(r, g, b, a))
}

/// The text under which a colour is stored in JSON: `#RRGGBB` for an opaque
/// colour, `#RRGGBBAA` for one with any transparency.
pub open spec fn hex_json_text(c: HexColor) -> Seq<char> {
    if c.a == 255 {
        hex_rgb_text(c)
    } else {
        hex_rgb_text(c) + hex_byte(c.a)
    }
}

/// `hex_color::HexColor`'s `Display` impl with the alternate flag (`{:#}`):
/// the `#RRGGBB` text followed by the alpha channel as two upper-case
/// hexadecimal digits.
#[verifier::external_body]
fn hex_color_display_alpha(r: u8, g: u8, b: u8, a: u8) -> (s: String)
    ensures
        s@ == hex_rgb_text(HexColor { r, g, b, a }) + hex_byte(a),
{
    format!("{:#}", hex_color::HexColor::rgba(r, g, b, a))
}

impl HexColor {
    /// The opaque colour `rgb(255, 0, 0)`.
    pub fn red() -> (c: HexColor)
        ensures
            c == (HexColor { r: 255, g: 0, b: 0, a: 255 }),
    {
        HexColor { r: 255, g: 0, b: 0, a: 255 }
    }
    /// The opaque colour `rgb(0, 255, 0)`.
    pub fn green() -> (c: HexColor)
        ensures
            c == (HexColor { r: 0, g: 255, b: 0, a: 255 }),
    {
        HexColor { r: 0, g: 255, b: 0, a: 255 }
    }
    /// The opaque colour `rgb(0, 0, 255)`.
    pub fn blue() -> (c: HexColor)
        ensures
            c == (HexColor { r: 0, g: 0, b: 255, a: 255 }),
    {
        HexColor { r: 0, g: 0, b: 255, a: 255 }
    }
    /// The opaque colour `rgb(0, 255, 255)`.
    pub fn cyan() -> (c: HexColor)
        ensures
            c == (HexColor { r: 0, g: 255, b: 255, a: 255 }),
    {
        HexColor { r: 0, g: 255, b: 255, a: 255 }
    }
    /// The opaque colour `rgb(255, 0, 255)`.
    pub fn magenta() -> (c: HexColor)
        ensures
            c == (HexColor { r: 255, g: 0, b: 255, a: 255 }),
    {
        HexColor { r: 255, g: 0, b: 255, a: 255 }
    }
    /// The opaque colour `rgb(255, 255, 0)`.
    pub fn yellow() -> (c: HexColor)
        ensures
            c == (HexColor { r: 255, g: 255, b: 0, a: 255 }),
    {
        HexColor { r: 255, g: 255, b: 0, a: 255 }
    }
    /// The opaque colour `rgb(0, 0, 0)`.
    pub fn black() -> (c: HexColor)
        ensures
            c == (HexColor { r: 0, g: 0, b: 0, a: 255 }),
    {
        HexColor { r: 0, g: 0, b: 0, a: 255 }
    }
    /// The opaque colour `rgb(255, 255, 255)`.
    pub fn white() -> (c: HexColor)
        ensures
            c == (HexColor { r: 255, g: 255, b: 255, a: 255 }),
    {
        HexColor { r: 255, g: 255, b: 255, a: 255 }
    }

    /// An opaque colour from its red, green and blue channels.
    pub fn rgb(r: u8, g: u8, b: u8) -> (c: HexColor)
        ensures
            c == (HexColor { r, g, b, a: 255 }),
    {
        HexColor { r, g, b, a: 255 }
    }

    /// An opaque colour from a `0xRRGGBB` value.
    pub fn from_u24(v: u32) -> (c: HexColor)
        requires
            v < 0x1000000,
        ensures
            c == (HexColor { r: (v / 0x10000) as u8, g: ((v / 0x100) % 0x100) as u8, b: (v % 0x100) as u8, a: 255 }),
    {
        HexColor { r: (v / 0x10000) as u8, g: ((v / 0x100) % 0x100) as u8, b: (v % 0x100) as u8, a: 255 }
    }

    /// The `#RRGGBB` text of this colour, as used in pango markup and in the
    /// i3bar protocol.
    pub fn display_rgb(&self) -> (s: String)
        ensures
            s@ == hex_rgb_text(*self),
    {
        hex_color_display(self.r, self.g, self.b, self.a)
    }

    /// The text under which this colour is stored in JSON: `#RRGGBB` when it
    /// is opaque, else `#RRGGBBAA`.
    pub fn json_text(&self) -> (s: String)
        ensures
            s@ == hex_json_text(*self),
    {
        if self.a == 255 {
            hex_color_display(self.r, self.g, self.b, self.a)
        } else {
            hex_color_display_alpha(self.r, self.g, self.b, self.a)
        }
    }
}

} // verus!
