use std::time::Duration;

use vstd::prelude::*;

use crate::bar_items::block;
use crate::color::HexColor;
use crate::dbus::{ac_adapter, is_notification, Notification, Urgency};
use crate::i3::click::I3Button;
use crate::i3::bar_item::I3Item;
use crate::text::{decimal, str_eq, u64_to_decimal};
use crate::theme::Theme;

verus! {

/// The state of a battery, as the kernel reports it.
#[derive(Debug, Clone, Copy, PartialEq, Eq, Structural)]
pub enum BatState {
    Unknown,
    Charging,
    Discharging,
    NotCharging,
    Full,
}

/// The state that the kernel's `status` text names, if any.
pub open spec fn bat_state_of(s: Seq<char>) -> Option<BatState> {
    if s == "Unknown"@ {
        Some(BatState::Unknown)
    } else if s == "Charging"@ {
        Some(BatState::Charging)
    } else if s == "Discharging"@ {
        Some(BatState::Discharging)
    } else if s == "Not charging"@ {
        Some(BatState::NotCharging)
    } else if s == "Full"@ {
        Some(BatState::Full)
    } else {
        None
    }
}

/// The icon of the charging state.
pub open spec fn charging_icon() -> Seq<char> {
    seq!['\u{f06a5}']
}

/// The icon and colour that a state overrides the charge's with, if any.
pub open spec fn state_style(theme: Theme, s: BatState) -> (Option<Seq<char>>, Option<HexColor>) {
    match s {
        BatState::Full => (None, Some(theme.purple)),
        BatState::Charging => (Some(charging_icon()), Some(theme.blue)),
        _ => (None, None),
    }
}

impl BatState {
    /// Reads the kernel's `status` text.
    pub fn from_str(s: &str) -> (r: Result<BatState, String>)
        ensures
            match bat_state_of(s@) {
                Some(b) => r == Ok::<BatState, String>(b),
                None => r matches Err(e) && e@ == "Unknown battery state: "@ + s@,
            },
    {
        if str_eq(s, "Unknown") {
            Ok(BatState::Unknown)
        } else if str_eq(s, "Charging") {
            Ok(BatState::Charging)
        } else if str_eq(s, "Discharging") {
            Ok(BatState::Discharging)
        } else if str_eq(s, "Not charging") {
            Ok(BatState::NotCharging)
        } else if str_eq(s, "Full") {
            Ok(BatState::Full)
        } else {
            let mut e = String::from_str("Unknown battery state: ");
            e.append(s);
            Err(e)
        }
    }

    /// The icon and colour this state shows instead of the charge's.
    pub fn get_color(&self, theme: &Theme) -> (r: (Option<String>, Option<HexColor>))
        ensures
            r.1 == state_style(*theme, *self).1,
            match state_style(*theme, *self).0 {
                Some(i) => r.0 matches Some(s) && s@ == i,
                None => r.0 is None,
            },
    {
        match self {
            BatState::Full => (None, Some(theme.purple)),
            BatState::Charging => {
                let mut s = String::new();
                s.push('\u{f06a5}');
                (Some(s), Some(theme.blue))
            },
            _ => (None, None),
        }
    }
}

/// The icon for a charge of `pct` percent.
pub open spec fn charge_icon(pct: u32) -> char {
    if pct <= 15 {
        '\u{f244}'
    } else if pct <= 25 {
        '\u{f243}'
    } else if pct <= 50 {
        '\u{f242}'
    } else if pct <= 75 {
        '\u{f241}'
    } else {
        '\u{f240}'
    }
}

/// The colour for a charge of `pct` percent.
pub open spec fn charge_color(theme: Theme, pct: u32) -> Option<HexColor> {
    if pct <= 15 {
        Some(theme.red)
    } else if pct <= 25 {
        Some(theme.orange)
    } else if pct <= 50 {
        Some(theme.yellow)
    } else if pct <= 75 {
        None
    } else {
        Some(theme.green)
    }
}

/// The charge icons by band: from empty at 15% or less to full above 75%.
pub proof fn lemma_charge_icon_bands(pct: u32)
    ensures
        pct <= 15 ==> charge_icon(pct) == '\u{f244}',
        15 < pct <= 25 ==> charge_icon(pct) == '\u{f243}',
        25 < pct <= 50 ==> charge_icon(pct) == '\u{f242}',
        50 < pct <= 75 ==> charge_icon(pct) == '\u{f241}',
        75 < pct ==> charge_icon(pct) == '\u{f240}',
{
}

/// Only a low battery that is not plugged in is urgent.
pub proof fn lemma_urgent_only_when_low(pct: u32, s: BatState)
    ensures
        charge_urgent(pct, s) <==> (pct <= 15 && s != BatState::Charging && s != BatState::NotCharging),
{
}

/// The charge colours by band: red at 15% or less, orange up to 25%,
/// yellow up to 50%, none up to 75%, and green above 75%.
pub proof fn lemma_charge_color_bands(theme: Theme, pct: u32)
    ensures
        pct <= 15 ==> charge_color(theme, pct) == Some(theme.red),
        15 < pct <= 25 ==> charge_color(theme, pct) == Some(theme.orange),
        25 < pct <= 50 ==> charge_color(theme, pct) == Some(theme.yellow),
        50 < pct <= 75 ==> charge_color(theme, pct) is None,
        75 < pct ==> charge_color(theme, pct) == Some(theme.green),
{
}

/// A full battery is shown in purple and a charging one in blue; any other
/// state takes the colour of its charge.
pub proof fn lemma_state_colors(theme: Theme, s: BatState)
    ensures
        s == BatState::Full ==> state_style(theme, s).1 == Some(theme.purple),
        s == BatState::Charging ==> state_style(theme, s).1 == Some(theme.blue),
        s != BatState::Full && s != BatState::Charging ==> state_style(theme, s).1 is None,
{
}

/// A low battery is urgent, unless it is plugged in.
pub open spec fn charge_urgent(pct: u32, s: BatState) -> bool {
    pct <= 15 && !(s == BatState::Charging || s == BatState::NotCharging)
}

/// What was read of a battery.
#[derive(Debug, Clone, Copy)]
pub struct BatReading {
    /// The charge in percent, truncated.
    pub charge_pct: u32,
    /// The charge in percent, rounded to an integer for display.
    pub charge_shown: u32,
    pub state: BatState,
}

/// A name for the last component of a path (std's `Path::file_name`, as
/// text): `None` for a path that ends in `..` or has no final component.
pub uninterp spec fn path_file_name(path: Seq<char>) -> Option<Seq<char>>;

/// std's `Path::file_name` on the path `path`: the final component of the
/// path (ignoring a trailing `/` and `.` components), or `None` when the path
/// ends in `..` or is a root or empty. The claim is that the result is the
/// value of `path_file_name` on the path's text. The component of a path
/// given as UTF-8 text is UTF-8 text, so the lossy conversion keeps it.
#[verifier::external_body]
fn file_name_of(path: &str) -> (r: Option<String>)
    ensures
        match r {
            Some(s) => path_file_name(path@) == Some(s@),
            None => path_file_name(path@) is None,
        },
{
    std::path::Path::new(path).file_name().map(|n| n.to_string_lossy().into_owned())
}

/// A battery, by its directory under `/sys/class/power_supply`.
#[derive(Debug, Clone)]
pub struct Bat {
    pub path: String,
}

/// The text shown for a battery that shows its charge.
pub open spec fn charge_text(label: Seq<char>, shown: u32) -> Seq<char> {
    label + "  "@ + decimal(shown as nat) + "%"@
}

impl Bat {
    /// The name of the battery: the last component of its path.
    pub fn name(&self) -> (r: Result<String, String>)
        ensures
            match path_file_name(self.path@) {
                Some(n) => r matches Ok(s) && s@ == n,
                None => r matches Err(e) && e@ == "failed to parse file name from: "@ + self.path@,
            },
    {
        match file_name_of(self.path.as_str()) {
            Some(n) => Ok(n),
            None => {
                let mut e = String::from_str("failed to parse file name from: ");
                e.append(self.path.as_str());
                Err(e)
            },
        }
    }

    /// The block for this battery. `reading` is `None` when the battery's
    /// files could not be read; `watts` holds the power draw (long and short
    /// text) when that is shown instead of the charge. The first battery
    /// (`BAT0`) is shown by its icon, others by their name.
    pub fn format(&self, theme: &Theme, reading: Option<BatReading>, watts: Option<(&str, &str)>) -> (r: Result<I3Item, String>)
        ensures
            reading matches Some(rd) ==> (rd.state != BatState::Full && rd.state != BatState::Charging) ==> (r matches Ok(
                it,
            ) ==> it.color == (if rd.charge_pct <= 15 {
                if rd.state == BatState::NotCharging { Some(theme.red) } else { None }
            } else if rd.charge_pct <= 25 {
                Some(theme.orange)
            } else if rd.charge_pct <= 50 {
                Some(theme.yellow)
            } else if rd.charge_pct <= 75 {
                None
            } else {
                Some(theme.green)
            })),
            reading matches Some(rd) ==> rd.state == BatState::Full ==> (r matches Ok(it) ==> it.color == if rd.charge_pct
                <= 15 { None } else { Some(theme.purple) }),
            reading matches Some(rd) ==> rd.state == BatState::Charging ==> (r matches Ok(it) ==> it.color == Some(
                theme.blue,
            )),
            match reading {
                None => (r matches Ok(it) && block(it, "???"@, None, Some(theme.red), None, None, None)),
                Some(rd) => {
                    let st = state_style(*theme, rd.state);
                    let icon = match st.0 {
                        Some(i) => i,
                        None => seq![charge_icon(rd.charge_pct)],
                    };
                    let fg = match st.1 {
                        Some(c) => Some(c),
                        None => charge_color(*theme, rd.charge_pct),
                    };
                    let urgent = charge_urgent(rd.charge_pct, rd.state);
                    let color = if urgent { None } else { fg };
                    let urg = if urgent { Some(true) } else { None };
                    match watts {
                        Some((long, short)) => (r matches Ok(it) && block(it, long@, Some(short@), color, None, urg, None)),
                        None => match path_file_name(self.path@) {
                            None => (r matches Err(e) && e@ == "failed to parse file name from: "@ + self.path@),
                            Some(n) => {
                                let label = if n == "BAT0"@ { icon } else { n };
                                r matches Ok(it) && block(it, charge_text(label, rd.charge_shown),
                                    Some(decimal(rd.charge_shown as nat) + "%"@), color, None, urg, None)
                            },
                        },
                    }
                },
            },
    {
        let rd = match reading {
            None => {
                proof {
                    reveal_strlit("???");
                }
                return Ok(I3Item::new("???").color(theme.red));
            },
            Some(rd) => rd,
        };
        let (state_icon, state_fg) = rd.state.get_color(theme);
        let p = rd.charge_pct;
        let (charge_icon_c, charge_fg, urgent) = if p <= 15 {
            let urgent = !(rd.state == BatState::Charging || rd.state == BatState::NotCharging);
            ('\u{f244}', Some(theme.red), urgent)
        } else if p <= 25 {
            ('\u{f243}', Some(theme.orange), false)
        } else if p <= 50 {
            ('\u{f242}', Some(theme.yellow), false)
        } else if p <= 75 {
            ('\u{f241}', None, false)
        } else {
            ('\u{f240}', Some(theme.green), false)
        };
        let icon = match state_icon {
            Some(i) => i,
            None => {
                let mut s = String::new();
                s.push(charge_icon_c);
                s
            },
        };
        let fg = match state_fg {
            Some(c) => Some(c),
            None => charge_fg,
        };
        let item = match watts {
            Some((long, short)) => I3Item::new(long).short_text(short),
            None => {
                let name = match self.name() {
                    Ok(n) => n,
                    Err(e) => return Err(e),
                };
                let label = if str_eq(name.as_str(), "BAT0") {
                    icon
                } else {
                    name
                };
                let shown = u64_to_decimal(rd.charge_shown as u64);
                let mut full = label;
                full.append("  ");
                full.append(shown.as_str());
                full.append("%");
                let mut short = shown;
                short.append("%");
                I3Item::new(full.as_str()).short_text(short.as_str())
            },
        };
        if urgent {
            Ok(item.urgent(true))
        } else {
            match fg {
                Some(c) => Ok(item.color(c)),
                None => Ok(item),
            }
        }
    }
}

/// The battery item's settings: how often it refreshes, the batteries to
/// show (all that can be found where none are listed), and whether plugging
/// the AC adapter in or out sends a notification.
#[derive(Debug)]
pub struct Battery {
    pub interval: Duration,
    pub batteries: Option<Vec<Bat>>,
    pub notify_on_adapter: bool,
}

impl Battery {
    /// The batteries to show: those listed, else `found`; an error where
    /// that list is empty.
    pub fn chosen(&self, found: Vec<Bat>) -> (r: Result<Vec<Bat>, String>)
        ensures
            ({
                let list = match self.batteries {
                    Some(b) => b@,
                    None => found@,
                };
                &&& list.len() == 0 ==> (r matches Err(e) && e@ == "no batteries found"@)
                &&& list.len() > 0 ==> (r matches Ok(v) && v@.len() == list.len()
                    && forall|i: int| 0 <= i < list.len() ==> (#[trigger] v@[i]).path@ == list[i].path@)
            }),
    {
        let list = match &self.batteries {
            Some(b) => {
                let mut v: Vec<Bat> = Vec::new();
                let mut i: usize = 0;
                while i < b.len()
                    invariant
                        i <= b.len(),
                        v@.len() == i,
                        forall|k: int| 0 <= k < i ==> (#[trigger] v@[k]).path@ == b@[k].path@,
                    decreases b.len() - i,
                {
                    v.push(Bat { path: b[i].path.clone() });
                    i += 1;
                }
                v
            },
            None => found,
        };
        if list.len() == 0 {
            Err(String::from_str("no batteries found"))
        } else {
            Ok(list)
        }
    }

    /// Whether the power draw is shown after a click: the middle button
    /// toggles it.
    pub fn watts_after_click(show_watts: bool, button: I3Button) -> (r: bool)
        ensures
            r == if button == I3Button::Middle { !show_watts } else { show_watts },
    {
        if button == I3Button::Middle {
            !show_watts
        } else {
            show_watts
        }
    }

    /// The notification sent when the AC adapter is plugged in or out, if
    /// this item sends one.
    pub fn adapter_notification(&self, plugged_in: bool) -> (r: Option<Notification>)
        ensures
            !self.notify_on_adapter ==> r is None,
            self.notify_on_adapter ==> (r matches Some(n) && is_notification(n, None, None, Some(Urgency::Low),
                "AC Adapter"@, if plugged_in { "Connected"@ } else { "Disconnected"@ }, 2000)),
    {
        if self.notify_on_adapter {
            Some(ac_adapter(plugged_in))
        } else {
            None
        }
    }
}

} // verus!
