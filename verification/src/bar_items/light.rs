//! The backlight item.

use vstd::prelude::*;

use crate::bar_items::block;
use crate::i3::bar_item::I3Item;
use crate::i3::click::I3Button;
use crate::text::{decimal, pad_left, u64_to_decimal};

verus! {

/// A backlight device.
#[derive(Debug, Clone)]
pub struct LightFile {
    /// The largest brightness value of the device.
    pub max_brightness: u64,
    /// The file holding the device's brightness.
    pub brightness_file: String,
}

/// A byte's value read as a signed byte (`u8 as i8`).
pub open spec fn as_signed(p: u8) -> int {
    if p > 127 {
        p - 256
    } else {
        p as int
    }
}

/// The remainder of `a / b` rounded toward zero, as Rust's `%` computes it:
/// it takes the sign of `a`.
pub open spec fn trunc_rem(a: int, b: int) -> int {
    let m = if b < 0 { -b } else { b };
    if a < 0 {
        -((-a) % m)
    } else {
        a % m
    }
}

/// The step of an adjustment of `pct` by `amount`: up (or down) to the next
/// multiple of `amount`.
pub open spec fn adjust_step(pct: u8, amount: i8) -> int {
    amount - trunc_rem(as_signed(pct), amount as int)
}

/// The brightness in percent after adjusting `pct` by `amount`, within 0 to
/// 100.
pub open spec fn adjusted_pct(pct: u8, amount: i8) -> int {
    let s = pct + adjust_step(pct, amount);
    let sat = if s < 0 { 0 } else if s > 255 { 255 } else { s };
    if sat > 100 { 100 } else { sat }
}

/// Adjusting never takes the brightness out of 0 to 100 percent.
pub proof fn lemma_adjust_in_range(pct: u8, amount: i8)
    ensures
        0 <= adjusted_pct(pct, amount) <= 100,
{
}

/// The icon for a brightness of `pct` percent.
pub open spec fn light_icon(pct: u8) -> char {
    if pct <= 14 {
        '\u{f00da}'
    } else if pct <= 29 {
        '\u{f00db}'
    } else if pct <= 44 {
        '\u{f00dc}'
    } else if pct <= 59 {
        '\u{f00dd}'
    } else if pct <= 74 {
        '\u{f00de}'
    } else if pct <= 89 {
        '\u{f00df}'
    } else {
        '\u{f00e0}'
    }
}

/// The brightness icon steps from the dimmest below 15% to the brightest
/// from 90%.
pub proof fn lemma_light_icon_ends(pct: u8)
    ensures
        pct < 15 ==> light_icon(pct) == '\u{f00da}',
        90 <= pct ==> light_icon(pct) == '\u{f00e0}',
{
}

/// What a click or command does to the light.
#[derive(Debug, Clone, Copy, PartialEq, Eq, Structural)]
pub enum LightAction {
    /// Set the brightness to a percentage.
    SetTo(u8),
    /// Adjust the brightness by an amount.
    Adjust(i8),
}

/// A percentage kept to at most 100.
pub open spec fn clamp_pct(pct: u8) -> int {
    if pct > 100 { 100 } else { pct as int }
}

/// The device value for `p` percent of `max`, rounded to the nearest.
pub open spec fn light_value(max: int, p: int) -> int {
    (p * max + 50) / 100
}

proof fn lemma_light_value(max: int, p: int)
    requires
        max >= 0,
        0 <= p <= 100,
    ensures
        light_value(max, p) == p * (max / 100) + (p * (max % 100) + 50) / 100,
        light_value(max, p) <= max,
        max >= 100 ==> (light_value(max, p) * 100 + max / 2) / max == p,
{
    let q = max / 100;
    let m = max % 100;
    assert(max == 100 * q + m && 0 <= m < 100);
    assert(p * max + 50 == 100 * (p * q) + (p * m + 50)) by (nonlinear_arith)
        requires
            max == 100 * q + m,
    ;
    assert((100 * (p * q) + (p * m + 50)) / 100 == p * q + (p * m + 50) / 100) by (nonlinear_arith);
    let w = light_value(max, p);
    assert(100 * w <= p * max + 50 && p * max + 50 < 100 * w + 100) by (nonlinear_arith)
        requires
            w == (p * max + 50) / 100,
    ;
    assert(p * max <= 100 * max) by (nonlinear_arith)
        requires
            p <= 100,
            max >= 0,
    ;
    if max >= 100 {
        let h = max / 2;
        assert(2 * h <= max <= 2 * h + 1);
        let t = w * 100 + h;
        if max == 100 {
            assert(w == p) by (nonlinear_arith)
                requires
                    100 * w <= p * max + 50,
                    p * max + 50 < 100 * w + 100,
                    max == 100,
            ;
        }
        assert(p * max <= t && t < p * max + max) by (nonlinear_arith)
            requires
                100 * w <= p * max + 50,
                p * max + 50 < 100 * w + 100,
                t == w * 100 + h,
                2 * h <= max <= 2 * h + 1,
                max >= 100,
                max == 100 ==> w == p,
        ;
        assert(t / max == p) by (nonlinear_arith)
            requires
                p * max <= t,
                t < p * max + max,
                max > 0,
        ;
    }
}

/// Setting a light to a percentage and reading it back gives that
/// percentage (kept to at most 100), on a device whose maximum is at least
/// 100; the value written never passes the maximum.
pub proof fn lemma_light_set_reads_back(max_brightness: u64, pct: u8)
    requires
        max_brightness >= 100,
    ensures
        light_value(max_brightness as int, clamp_pct(pct)) <= max_brightness,
        (light_value(max_brightness as int, clamp_pct(pct)) * 100 + max_brightness / 2) / (max_brightness as int)
            == clamp_pct(pct),
{
    lemma_light_value(max_brightness as int, clamp_pct(pct));
}

impl LightFile {
    /// The brightness in percent for the device's `value`, rounded to the
    /// nearest percent (and kept to a byte).
    pub fn percent(&self, value: u64) -> (r: u8)
        requires
            self.max_brightness > 0,
            value * 100 + self.max_brightness / 2 <= u64::MAX,
        ensures
            r == ((value * 100 + self.max_brightness / 2) / (self.max_brightness as int)) % 256,
    {
        (((value * 100 + self.max_brightness / 2) / self.max_brightness) % 256) as u8
    }

    /// The device value for `pct` percent (at most 100): the nearest value
    /// to that share of the maximum, so that reading it back as a percentage
    /// gives `pct` again.
    pub fn value_for(&self, pct: u8) -> (r: u64)
        ensures
            r == light_value(self.max_brightness as int, clamp_pct(pct)),
            r <= self.max_brightness,
            self.max_brightness >= 100 ==> (r * 100 + self.max_brightness / 2) / (self.max_brightness as int)
                == clamp_pct(pct),
    {
        let p: u64 = if pct > 100 { 100 } else { pct as u64 };
        let max = self.max_brightness;
        let step = max / 100;
        let rest = max % 100;
        proof {
            lemma_light_value(max as int, p as int);
        }
        assert(p * step <= 100 * step) by (nonlinear_arith)
            requires
                p <= 100,
        ;
        assert(p * rest <= 100 * 99) by (nonlinear_arith)
            requires
                p <= 100,
                rest < 100,
        ;
        p * step + (p * rest + 50) / 100
    }

    /// The percentage after adjusting `pct` by `amount`: to the next multiple
    /// of `amount` in its direction, kept within 0 to 100.
    pub fn adjust(pct: u8, amount: i8) -> (r: u8)
        requires
            amount != 0,
            !(as_signed(pct) == -128 && amount == -1),
            -128 <= adjust_step(pct, amount) <= 127,
        ensures
            r == adjusted_pct(pct, amount),
    {
        let a: i16 = if pct > 127 { pct as i16 - 256 } else { pct as i16 };
        let b: i16 = amount as i16;
        let m: u16 = if b < 0 { (-b) as u16 } else { b as u16 };
        let rem: i16 = if a < 0 {
            let x: u16 = (-a) as u16;
            -((x % m) as i16)
        } else {
            let x: u16 = a as u16;
            (x % m) as i16
        };
        let step: i16 = b - rem;
        let s: i16 = pct as i16 + step;
        let sat: i16 = if s < 0 { 0 } else if s > 255 { 255 } else { s };
        let r: i16 = if sat > 100 { 100 } else { sat };
        r as u8
    }

    /// The icon for a brightness of `pct` percent.
    pub fn icon(pct: u8) -> (r: char)
        ensures
            r == light_icon(pct),
    {
        if pct <= 14 {
            '\u{f00da}'
        } else if pct <= 29 {
            '\u{f00db}'
        } else if pct <= 44 {
            '\u{f00dc}'
        } else if pct <= 59 {
            '\u{f00dd}'
        } else if pct <= 74 {
            '\u{f00de}'
        } else if pct <= 89 {
            '\u{f00df}'
        } else {
            '\u{f00e0}'
        }
    }

    /// The block for a brightness of `pct` percent.
    pub fn format(pct: u8) -> (r: I3Item)
        ensures
            block(r, seq![light_icon(pct), ' '] + pad_left(decimal(pct as nat), 3) + "%"@, None, None, None, None,
                None),
    {
        let mut t = String::new();
        t.push(Self::icon(pct));
        t.push(' ');
        let d = u64_to_decimal(pct as u64);
        let len = d.unicode_len();
        let ghost before = t@;
        let mut k = len;
        while k < 3
            invariant
                len == d@.len(),
                len <= k,
                k <= 3 || k == len,
                t@ == before + Seq::new((k - len) as nat, |i: int| ' '),
            decreases 3 - k,
        {
            t.push(' ');
            k = k + 1;
            assert(t@ =~= before + Seq::new((k - len) as nat, |i: int| ' '));
        }
        t.append(d.as_str());
        t.append("%");
        proof {
            if len >= 3 {
                assert(Seq::new((k - len) as nat, |i: int| ' ') =~= Seq::<char>::empty());
            }
            assert(t@ =~= seq![light_icon(pct), ' '] + pad_left(decimal(pct as nat), 3) + "%"@);
        }
        I3Item::new(t.as_str())
    }
}

/// The light item's settings: an optional path to one device, and how much
/// scrolling adjusts it (5 by default).
#[derive(Debug, Clone)]
pub struct Light {
    pub path: Option<String>,
    pub increment: Option<u8>,
}

impl Default for Light {
    fn default() -> (r: Light)
        ensures
            r.path is None,
            r.increment is None,
    {
        Light { path: None, increment: None }
    }
}

/// A command sent to the light item over IPC.
#[derive(Debug, Clone, Copy, PartialEq, Eq, Structural)]
pub enum LightCommand {
    /// Raise the brightness by the increment.
    Increase,
    /// Lower the brightness by the increment.
    Decrease,
    /// Set the brightness to a percentage.
    SetTo { pct: u8 },
}

impl Light {
    /// The increment read as a signed byte, 5 where none is set.
    pub open spec fn step_spec(&self) -> int {
        match self.increment {
            Some(i) => as_signed(i),
            None => 5,
        }
    }

    /// The increment read as a signed byte, 5 where none is set.
    pub fn step(&self) -> (r: i8)
        ensures
            r == self.step_spec(),
    {
        match self.increment {
            Some(i) => if i > 127 {
                (i as i16 - 256) as i8
            } else {
                i as i8
            },
            None => 5,
        }
    }

    /// What a click does to the light: the left button sets it to 1%, the
    /// right one to 100%, scrolling up or down adjusts it by the step.
    pub fn click_action(&self, button: I3Button) -> (r: Option<LightAction>)
        requires
            button == I3Button::ScrollDown ==> self.increment != Some(128u8),
        ensures
            match button {
                I3Button::Left => r == Some(LightAction::SetTo(1)),
                I3Button::Right => r == Some(LightAction::SetTo(100)),
                I3Button::ScrollUp => r matches Some(LightAction::Adjust(a)) && a == self.step_spec(),
                I3Button::ScrollDown => r matches Some(LightAction::Adjust(a)) && a == -self.step_spec(),
                _ => r is None,
            },
    {
        let inc = self.step();
        match button {
            I3Button::Left => Some(LightAction::SetTo(1)),
            I3Button::Right => Some(LightAction::SetTo(100)),
            I3Button::ScrollUp => Some(LightAction::Adjust(inc)),
            I3Button::ScrollDown => Some(LightAction::Adjust(-inc)),
            _ => None,
        }
    }

    /// What an IPC command does to the light: increase or decrease by the
    /// step, or set a percentage.
    pub fn command_action(&self, cmd: LightCommand) -> (r: LightAction)
        requires
            cmd == LightCommand::Decrease ==> self.increment != Some(128u8),
        ensures
            match cmd {
                LightCommand::Increase => r == LightAction::Adjust(self.step_spec() as i8),
                LightCommand::Decrease => r == LightAction::Adjust((-self.step_spec()) as i8),
                LightCommand::SetTo { pct } => r == LightAction::SetTo(pct),
            },
    {
        let inc = self.step();
        match cmd {
            LightCommand::Increase => LightAction::Adjust(inc),
            LightCommand::Decrease => LightAction::Adjust(-inc),
            LightCommand::SetTo { pct } => LightAction::SetTo(pct),
        }
    }
}

} // verus!
