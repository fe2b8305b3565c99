use vstd::prelude::*;

use crate::color::HexColor;

verus! {

/// A foreground/background pair used for one segment of the powerline bar.
#[derive(Debug, Clone, Copy, PartialEq, Eq, Structural)]
pub struct PowerlineColor {
    pub fg: HexColor,
    pub bg: HexColor,
}

/// The separator drawn between powerline segments.
#[derive(Debug, Clone)]
pub struct PowerlineSeparator {
    /// The glyph (or text) of the separator.
    pub value: String,
}

impl PowerlineSeparator {
    /// The separator as pango markup.
    pub fn to_span(&self) -> (s: String)
        ensures
            s@ == self.value@,
    {
        self.value.clone()
    }
}

/// The colours of the bar.
#[derive(Debug, Clone)]
pub struct Theme {
    pub bg: HexColor,
    pub fg: HexColor,
    pub dim: HexColor,
    pub red: HexColor,
    pub orange: HexColor,
    pub yellow: HexColor,
    pub green: HexColor,
    pub purple: HexColor,
    pub blue: HexColor,
    pub urgent_bg: HexColor,
    pub urgent_fg: HexColor,
    /// The colours the powerline segments cycle through, right to left.
    pub powerline: Vec<PowerlineColor>,
    pub powerline_enable: bool,
    pub powerline_separator: PowerlineSeparator,
}

/// The opaque colour `0xRRGGBB`.
pub open spec fn rgb24(v: int) -> HexColor {
    HexColor { r: (v / 0x10000) as u8, g: ((v / 0x100) % 0x100) as u8, b: (v % 0x100) as u8, a: 255 }
}

/// `t` is the default palette.
pub open spec fn is_default_theme(t: Theme) -> bool {
    &&& t.bg == rgb24(0x1d1f21)
    &&& t.fg == rgb24(0xc5c8c6)
    &&& t.dim == rgb24(0x707880)
    &&& t.red == rgb24(0xcc6666)
    &&& t.orange == rgb24(0xde935f)
    &&& t.yellow == rgb24(0xf0c674)
    &&& t.green == rgb24(0xb5bd68)
    &&& t.purple == rgb24(0xb294bb)
    &&& t.blue == rgb24(0x81a2be)
    &&& t.urgent_bg == rgb24(0xcc6666)
    &&& t.urgent_fg == rgb24(0x1d1f21)
    &&& t.powerline@ == seq![
        PowerlineColor { fg: rgb24(0xc5c8c6), bg: rgb24(0x373b41) },
        PowerlineColor { fg: rgb24(0xc5c8c6), bg: rgb24(0x282a2e) },
        PowerlineColor { fg: rgb24(0xc5c8c6), bg: rgb24(0x373b41) },
        PowerlineColor { fg: rgb24(0xc5c8c6), bg: rgb24(0x282a2e) },
        PowerlineColor { fg: rgb24(0xc5c8c6), bg: rgb24(0x1d1f21) },
    ]
    &&& !t.powerline_enable
    &&& t.powerline_separator.value@ == seq!['\u{e0b2}']
}

impl Theme {
    /// The powerline needs at least two colours to tell segments apart.
    pub fn validate(&self) -> (r: Result<(), String>)
        ensures
            r is Ok <==> self.powerline@.len() > 1,
            r matches Err(e) ==> e@ == "theme.powerline must contain at least two values"@,
    {
        if self.powerline.len() <= 1 {
            return Err(String::from_str("theme.powerline must contain at least two values"));
        }
        Ok(())
    }

    /// The default palette.
    pub fn default_theme() -> (t: Theme)
        ensures
            is_default_theme(t),
    {
        let bg = HexColor::from_u24(0x1d1f21);
        let fg = HexColor::from_u24(0xc5c8c6);
        let mut powerline: Vec<PowerlineColor> = Vec::new();
        powerline.push(PowerlineColor { fg, bg: HexColor::from_u24(0x373b41) });
        powerline.push(PowerlineColor { fg, bg: HexColor::from_u24(0x282a2e) });
        powerline.push(PowerlineColor { fg, bg: HexColor::from_u24(0x373b41) });
        powerline.push(PowerlineColor { fg, bg: HexColor::from_u24(0x282a2e) });
        powerline.push(PowerlineColor { fg, bg: HexColor::from_u24(0x1d1f21) });
        proof {
            reveal_strlit("\u{e0b2}");
            assert(powerline@ =~= seq![
                PowerlineColor { fg: rgb24(0xc5c8c6), bg: rgb24(0x373b41) },
                PowerlineColor { fg: rgb24(0xc5c8c6), bg: rgb24(0x282a2e) },
                PowerlineColor { fg: rgb24(0xc5c8c6), bg: rgb24(0x373b41) },
                PowerlineColor { fg: rgb24(0xc5c8c6), bg: rgb24(0x282a2e) },
                PowerlineColor { fg: rgb24(0xc5c8c6), bg: rgb24(0x1d1f21) },
            ]);
        }
        let sep = String::from_str("\u{e0b2}");
        assert(sep@ == seq!['\u{e0b2}']);
        let t = Theme {
            bg,
            fg,
            dim: HexColor::from_u24(0x707880),
            red: HexColor::from_u24(0xcc6666),
            orange: HexColor::from_u24(0xde935f),
            yellow: HexColor::from_u24(0xf0c674),
            green: HexColor::from_u24(0xb5bd68),
            purple: HexColor::from_u24(0xb294bb),
            blue: HexColor::from_u24(0x81a2be),
            urgent_bg: HexColor::from_u24(0xcc6666),
            urgent_fg: HexColor::from_u24(0x1d1f21),
            powerline,
            powerline_enable: false,
            powerline_separator: PowerlineSeparator { value: sep },
        };
        t
    }
}

impl Default for Theme {
    fn default() -> (t: Theme)
        ensures
            is_default_theme(t),
    {
        Theme::default_theme()
    }
}

} // verus!
