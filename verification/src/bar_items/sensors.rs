//! The temperature item.

use vstd::prelude::*;

use crate::bar_items::block;
use crate::color::HexColor;
use crate::i3::bar_item::{I3Item, I3Markup};
use crate::theme::Theme;

verus! {

/// The thermometer icon for `temp` degrees (truncated).
pub open spec fn temp_icon(temp: u32) -> char {
    if temp <= 59 {
        '\u{f2cb}'
    } else if temp <= 69 {
        '\u{f2ca}'
    } else if temp <= 79 {
        '\u{f2c9}'
    } else if temp <= 89 {
        '\u{f2c8}'
    } else {
        '\u{f2c7}'
    }
}

/// The colour for `temp` degrees (truncated).
pub open spec fn temp_color(theme: Theme, temp: u32) -> Option<HexColor> {
    if temp <= 59 {
        None
    } else if temp <= 79 {
        Some(theme.yellow)
    } else if temp <= 89 {
        Some(theme.orange)
    } else {
        Some(theme.red)
    }
}

/// The temperature colours by band: none below 60 degrees, yellow from 60,
/// orange from 80, red from 90.
pub proof fn lemma_temp_color_bands(theme: Theme, temp: u32)
    ensures
        temp < 60 ==> temp_color(theme, temp) is None,
        60 <= temp < 80 ==> temp_color(theme, temp) == Some(theme.yellow),
        80 <= temp < 90 ==> temp_color(theme, temp) == Some(theme.orange),
        90 <= temp ==> temp_color(theme, temp) == Some(theme.red),
        temp < 60 ==> temp_icon(temp) == '\u{f2cb}',
        90 <= temp ==> temp_icon(temp) == '\u{f2c7}',
{
}

/// The temperature item: shows one sensor.
#[derive(Debug, Clone)]
pub struct Sensors {
    /// Text shown after the temperature.
    pub label: Option<String>,
    /// The sensor's name.
    pub component: String,
}

impl Sensors {
    /// The icon and colour for `temp` degrees (truncated).
    pub fn get_icon(theme: &Theme, temp: u32) -> (r: (char, Option<HexColor>))
        ensures
            r.0 == temp_icon(temp),
            r.1 == temp_color(*theme, temp),
    {
        if temp <= 59 {
            ('\u{f2cb}', None)
        } else if temp <= 69 {
            ('\u{f2ca}', Some(theme.yellow))
        } else if temp <= 79 {
            ('\u{f2c9}', Some(theme.yellow))
        } else if temp <= 89 {
            ('\u{f2c8}', Some(theme.orange))
        } else {
            ('\u{f2c7}', Some(theme.red))
        }
    }

    /// The error when the sensor is not found.
    pub fn missing_error(&self) -> (r: String)
        ensures
            r@ == "no component found with name: "@ + self.component@,
    {
        let mut r = String::from_str("no component found with name: ");
        r.append(self.component.as_str());
        r
    }

    /// The block for `temp` degrees (truncated), written as `temp_text`.
    pub fn item(&self, theme: &Theme, temp: u32, temp_text: &str) -> (r: I3Item)
        ensures
            block(
                r,
                seq![temp_icon(temp), ' '] + temp_text@ + seq!['\u{b0}', 'C'] + match self.label {
                    Some(l) => l@,
                    None => Seq::empty(),
                },
                Some(temp_text@ + seq!['C']),
                temp_color(*theme, temp),
                None,
                None,
                Some(I3Markup::Pango),
            ),
    {
        let (icon, color) = Self::get_icon(theme, temp);
        let mut full = String::new();
        full.push(icon);
        full.push(' ');
        full.append(temp_text);
        full.push('\u{b0}');
        full.push('C');
        match &self.label {
            Some(l) => full.append(l.as_str()),
            None => {},
        }
        assert(full@ =~= seq![temp_icon(temp), ' '] + temp_text@ + seq!['\u{b0}', 'C'] + match self.label {
            Some(l) => l@,
            None => Seq::empty(),
        });
        let mut short = String::from_str(temp_text);
        short.push('C');
        assert(short@ =~= temp_text@ + seq!['C']);
        let item = I3Item::new(full.as_str()).short_text(short.as_str()).markup(I3Markup::Pango);
        match color {
            Some(c) => item.color(c),
            None => item,
        }
    }
}

} // verus!
