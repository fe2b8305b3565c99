//! The CPU and memory items.

use vstd::prelude::*;

use crate::bar_items::block;
use crate::bytes::{byte_size_text, bytesize_text};
use crate::color::HexColor;
use crate::format::FloatFormat;
use crate::i3::bar_item::{I3Item, I3Markup};
use crate::theme::Theme;

verus! {

/// The colour for a load of `pct` percent: yellow from 40, orange from 60,
/// red from 80 up to 100.
pub open spec fn load_color(theme: Theme, pct: u64) -> Option<HexColor> {
    if 80 <= pct <= 100 {
        Some(theme.red)
    } else if 60 <= pct <= 79 {
        Some(theme.orange)
    } else if 40 <= pct <= 59 {
        Some(theme.yellow)
    } else {
        None
    }
}

/// The load colours by band: none below 40%, yellow from 40%, orange from
/// 60%, red from 80% to 100%.
pub proof fn lemma_load_color_bands(theme: Theme, pct: u64)
    ensures
        pct < 40 ==> load_color(theme, pct) is None,
        40 <= pct < 60 ==> load_color(theme, pct) == Some(theme.yellow),
        60 <= pct < 80 ==> load_color(theme, pct) == Some(theme.orange),
        80 <= pct <= 100 ==> load_color(theme, pct) == Some(theme.red),
{
}

fn load_color_of(theme: &Theme, pct: u64) -> (r: Option<HexColor>)
    ensures
        r == load_color(*theme, pct),
{
    if 80 <= pct && pct <= 100 {
        Some(theme.red)
    } else if 60 <= pct && pct <= 79 {
        Some(theme.orange)
    } else if 40 <= pct && pct <= 59 {
        Some(theme.yellow)
    } else {
        None
    }
}

/// The CPU item.
#[derive(Debug, Clone)]
pub struct Cpu {
    /// How the percentage is written.
    pub float_fmt: FloatFormat,
}

impl Cpu {
    /// The text for a load written as `pct`.
    pub fn get_full_text(&self, _theme: &Theme, pct: &str) -> (r: String)
        ensures
            r@ == seq!['\u{f4bc}', ' '] + pct@ + "%"@,
    {
        let mut r = String::new();
        r.push('\u{f4bc}');
        r.push(' ');
        r.append(pct);
        r.append("%");
        r
    }

    /// The colour for a load of `pct` percent (truncated).
    pub fn get_color(&self, theme: &Theme, pct: u64) -> (r: Option<HexColor>)
        ensures
            r == load_color(*theme, pct),
    {
        load_color_of(theme, pct)
    }

    /// The block for a load of `pct` percent (truncated), written as
    /// `pct_text`.
    pub fn item(&self, theme: &Theme, pct: u64, pct_text: &str) -> (r: I3Item)
        ensures
            block(r, seq!['\u{f4bc}', ' '] + pct_text@ + "%"@, None, load_color(*theme, pct), None, None,
                Some(I3Markup::Pango)),
    {
        let text = self.get_full_text(theme, pct_text);
        let item = I3Item::new(text.as_str()).markup(I3Markup::Pango);
        match self.get_color(theme, pct) {
            Some(c) => item.color(c),
            None => item,
        }
    }
}

/// What the memory item shows.
#[derive(Debug, Clone, Copy, PartialEq, Eq, Structural)]
pub enum MemDisplay {
    Bytes,
    Percentage,
}

impl MemDisplay {
    /// The next way to show memory, cycling.
    pub fn next(&self) -> (r: MemDisplay)
        ensures
            *self == MemDisplay::Bytes ==> r == MemDisplay::Percentage,
            *self == MemDisplay::Percentage ==> r == MemDisplay::Bytes,
    {
        match self {
            MemDisplay::Bytes => MemDisplay::Percentage,
            MemDisplay::Percentage => MemDisplay::Bytes,
        }
    }
}

/// The memory item.
#[derive(Debug, Clone)]
pub struct Mem {
    /// How the percentage is written.
    pub float_fmt: FloatFormat,
    /// What is shown at first.
    pub display: MemDisplay,
}

/// The text of the memory item: the available memory, or the used share
/// written as `pct_text`.
pub open spec fn mem_text(display: MemDisplay, available: u64, pct_text: Seq<char>) -> Seq<char> {
    seq!['\u{f2db}', ' '] + match display {
        MemDisplay::Bytes => bytesize_text(available, false),
        MemDisplay::Percentage => pct_text + "%"@,
    }
}

impl Mem {
    /// The colour for `used_pct` percent (truncated) of memory in use.
    pub fn get_color(theme: &Theme, used_pct: u64) -> (r: Option<HexColor>)
        ensures
            r == load_color(*theme, used_pct),
    {
        load_color_of(theme, used_pct)
    }

    /// The block for `available` bytes available and `used_pct` percent
    /// (truncated) in use, written as `pct_text`.
    pub fn item(theme: &Theme, display: MemDisplay, available: u64, used_pct: u64, pct_text: &str) -> (r: I3Item)
        ensures
            block(r, mem_text(display, available, pct_text@), None, load_color(*theme, used_pct), None, None,
                Some(I3Markup::Pango)),
    {
        let mut text = String::new();
        text.push('\u{f2db}');
        text.push(' ');
        match display {
            MemDisplay::Bytes => {
                let b = byte_size_text(available, false);
                text.append(b.as_str());
                assert(text@ =~= mem_text(display, available, pct_text@));
            },
            MemDisplay::Percentage => {
                text.append(pct_text);
                text.append("%");
                assert(text@ =~= mem_text(display, available, pct_text@));
            },
        }
        let item = I3Item::new(text.as_str()).markup(I3Markup::Pango);
        match Self::get_color(theme, used_pct) {
            Some(c) => item.color(c),
            None => item,
        }
    }
}

} // verus!
