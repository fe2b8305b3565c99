//! The network usage item.

use vstd::prelude::*;

use crate::bar_items::{block, fg_attr, fg_attr_text};
use crate::bytes::{byte_size_text, bytesize_text};
use crate::color::HexColor;
use crate::i3::bar_item::{I3Item, I3Markup};
use crate::text::{left_pad, pad_left, str_eq};
use crate::theme::Theme;

verus! {

/// How usage is shown.
#[derive(Debug, Clone, Copy, PartialEq, Eq, Structural)]
pub enum UsageDisplay {
    /// In bits: 1 Kbit is 1000 bits.
    Bits,
    /// In bytes: 1 KB is 1000 bytes.
    Bytes,
    /// In bibytes: 1 KiB is 1024 bytes.
    Bibytes,
}

impl UsageDisplay {
    /// The next way to show usage, cycling.
    pub fn next(&self) -> (r: UsageDisplay)
        ensures
            *self == UsageDisplay::Bits ==> r == UsageDisplay::Bytes,
            *self == UsageDisplay::Bytes ==> r == UsageDisplay::Bibytes,
            *self == UsageDisplay::Bibytes ==> r == UsageDisplay::Bits,
    {
        match self {
            UsageDisplay::Bits => UsageDisplay::Bytes,
            UsageDisplay::Bytes => UsageDisplay::Bibytes,
            UsageDisplay::Bibytes => UsageDisplay::Bits,
        }
    }
}

/// The network usage item.
#[derive(Debug, Clone)]
pub struct NetUsage {
    /// Usage below this (in bytes per second) is shown as `-`; 1 KiB when
    /// unset.
    pub minimum: Option<u64>,
    /// Ascending limits (in bytes per second) that colour the usage.
    pub thresholds: Vec<u64>,
    /// Interfaces whose traffic is not counted.
    pub ignored_interfaces: Vec<String>,
    pub display: UsageDisplay,
    /// Take the usage as measured over exactly one interval.
    pub always_assume_interval: bool,
}

/// The first pair of consecutive thresholds that `bytes` lies between (the
/// lower one included), by the index of the lower one.
pub open spec fn first_window(thr: Seq<u64>, bytes: u64) -> Option<int> {
    if exists|i: int| 0 <= i && i + 1 < thr.len() && thr[i] <= bytes < #[trigger] thr[i + 1] {
        Some(choose|i: int| 0 <= i && i + 1 < thr.len() && thr[i] <= bytes < #[trigger] thr[i + 1]
            && forall|k: int| 0 <= k < i ==> !(thr[k] <= bytes < #[trigger] thr[k + 1]))
    } else {
        None
    }
}

/// The colour of a window of thresholds.
pub open spec fn window_color(theme: Theme, i: int) -> Option<HexColor> {
    if i == 0 {
        None
    } else if i == 1 {
        Some(theme.yellow)
    } else if i == 2 {
        Some(theme.orange)
    } else {
        Some(theme.red)
    }
}

/// The colour of a usage of `bytes`: dim up to the first threshold, then by
/// the pair of thresholds it lies between, purple above them all; none
/// without thresholds.
pub open spec fn usage_color(theme: Theme, thr: Seq<u64>, bytes: u64) -> Option<HexColor> {
    if thr.len() == 0 {
        None
    } else if bytes <= thr[0] {
        Some(theme.dim)
    } else {
        match first_window(thr, bytes) {
            Some(i) => window_color(theme, i),
            None => Some(theme.purple),
        }
    }
}

/// Whether the colour of `bytes` is defined: there are colours for the first
/// four pairs of thresholds only.
pub open spec fn color_defined(thr: Seq<u64>, bytes: u64) -> bool {
    thr.len() > 0 && bytes > thr[0] ==> (first_window(thr, bytes) matches Some(i) ==> i < 4)
}

/// The text of a usage of `bytes`, in bits when `as_bits`.
pub open spec fn bytes_text(bytes: u64, si: bool, as_bits: bool) -> Seq<char> {
    if as_bits {
        bytesize_text((bytes * 8) as u64, si).drop_last() + "bits"@
    } else {
        bytesize_text(bytes, si)
    }
}

/// The text of a usage of `bytes` as `display` shows it, or `-` below the
/// minimum; right-aligned in 8 characters.
pub open spec fn usage_text(bytes: u64, min: u64, display: UsageDisplay) -> Seq<char> {
    pad_left(
        if bytes >= min {
            match display {
                UsageDisplay::Bits => bytes_text(bytes, false, true),
                UsageDisplay::Bytes => bytes_text(bytes, false, false),
                UsageDisplay::Bibytes => bytes_text(bytes, true, false),
            }
        } else {
            "-"@
        },
        8,
    )
}

/// Whether a usage can be written: in bits, the number of bits must fit.
pub open spec fn text_defined(bytes: u64, min: u64, display: UsageDisplay) -> bool {
    bytes >= min && display == UsageDisplay::Bits ==> bytes * 8 <= u64::MAX
}

/// Writes `bytes` bytes, as bits when `as_bits`.
pub fn format_bytes(bytes: u64, si: bool, as_bits: bool) -> (r: String)
    requires
        as_bits ==> bytes * 8 <= u64::MAX,
    ensures
        r@ == bytes_text(bytes, si, as_bits),
{
    let mut s = byte_size_text(if as_bits { bytes * 8 } else { bytes }, si);
    if as_bits {
        let v: Vec<char> = crate::text::chars_of(s.as_str());
        let mut out = String::new();
        let mut i: usize = 0;
        while i < v.len() - 1
            invariant
                v@ == s@,
                v@.len() > 0,
                i + 1 <= v@.len(),
                out@ == v@.take(i as int),
            decreases v@.len() - i,
        {
            out.push(v[i]);
            i = i + 1;
            assert(out@ =~= v@.take(i as int));
        }
        assert(out@ =~= s@.drop_last());
        out.append("bits");
        out
    } else {
        s
    }
}

/// The total traffic down and up of the interfaces that are not ignored.
pub open spec fn traffic_total(samples: Seq<(String, u64, u64)>, ignored: Seq<String>) -> (int, int)
    decreases samples.len(),
{
    if samples.len() == 0 {
        (0, 0)
    } else {
        let (d, u) = traffic_total(samples.drop_last(), ignored);
        let s = samples.last();
        if exists|k: int| 0 <= k < ignored.len() && (#[trigger] ignored[k])@ == s.0@ {
            (d, u)
        } else {
            (d + s.1, u + s.2)
        }
    }
}

/// Usage below this is shown as `-`.
pub open spec fn min_usage(n: NetUsage) -> u64 {
    match n.minimum {
        Some(m) => m,
        None => 1024,
    }
}

impl NetUsage {
    /// Usage below this is shown as `-`.
    pub fn min(&self) -> (r: u64)
        ensures
            r == min_usage(*self),
    {
        match self.minimum {
            Some(m) => m,
            None => 1024,
        }
    }

    /// The colour of a usage of `bytes`.
    pub fn get_color(&self, theme: &Theme, bytes: u64) -> (r: Option<HexColor>)
        requires
            color_defined(self.thresholds@, bytes),
        ensures
            r == usage_color(*theme, self.thresholds@, bytes),
    {
        let thr = &self.thresholds;
        if thr.len() == 0 {
            return None;
        }
        if bytes <= thr[0] {
            return Some(theme.dim);
        }
        let mut i: usize = 0;
        while i < thr.len() - 1
            invariant
                thr@ == self.thresholds@,
                i + 1 <= thr@.len() || thr@.len() == 0,
                thr@.len() > 0,
                color_defined(thr@, bytes),
                bytes > thr@[0],
                forall|k: int| 0 <= k < i ==> !(thr@[k] <= bytes < #[trigger] thr@[k + 1]),
            decreases thr@.len() - i,
        {
            if thr[i] <= bytes && bytes < thr[i + 1] {
                proof {
                    let w = first_window(thr@, bytes).unwrap();
                    assert(thr@[i as int] <= bytes < thr@[i + 1]);
                    if w < i {
                        assert(!(thr@[w] <= bytes < thr@[w + 1]));
                    } else if w > i {
                        assert(!(thr@[i as int] <= bytes < thr@[i + 1]));
                    }
                }
                return if i == 0 {
                    None
                } else if i == 1 {
                    Some(theme.yellow)
                } else if i == 2 {
                    Some(theme.orange)
                } else {
                    Some(theme.red)
                };
            }
            i = i + 1;
        }
        Some(theme.purple)
    }

    /// The text of a usage of `bytes`.
    pub fn text(&self, bytes: u64, display: UsageDisplay) -> (r: String)
        requires
            text_defined(bytes, min_usage(*self), display),
        ensures
            r@ == usage_text(bytes, min_usage(*self), display),
    {
        let s = if bytes >= self.min() {
            match display {
                UsageDisplay::Bits => format_bytes(bytes, false, true),
                UsageDisplay::Bytes => format_bytes(bytes, false, false),
                UsageDisplay::Bibytes => format_bytes(bytes, true, false),
            }
        } else {
            String::from_str("-")
        };
        left_pad(s.as_str(), 8)
    }

    /// The traffic down and up of the interfaces that are not ignored, from
    /// `(interface, down, up)` samples.
    pub fn totals(&self, samples: &Vec<(String, u64, u64)>) -> (r: (u64, u64))
        requires
            forall|k: int| 0 <= k <= samples@.len() ==> #[trigger] traffic_total(samples@.take(k), self.ignored_interfaces@).0 <= u64::MAX
                && traffic_total(samples@.take(k), self.ignored_interfaces@).1 <= u64::MAX,
        ensures
            r.0 == traffic_total(samples@, self.ignored_interfaces@).0,
            r.1 == traffic_total(samples@, self.ignored_interfaces@).1,
    {
        let ign = &self.ignored_interfaces;
        let mut d: u64 = 0;
        let mut u: u64 = 0;
        let mut i: usize = 0;
        assert(samples@.take(0) =~= Seq::<(String, u64, u64)>::empty());
        while i < samples.len()
            invariant
                i <= samples@.len(),
                ign@ == self.ignored_interfaces@,
                forall|k: int| 0 <= k <= samples@.len() ==> #[trigger] traffic_total(samples@.take(k), ign@).0 <= u64::MAX
                    && traffic_total(samples@.take(k), ign@).1 <= u64::MAX,
                d == traffic_total(samples@.take(i as int), ign@).0,
                u == traffic_total(samples@.take(i as int), ign@).1,
            decreases samples@.len() - i,
        {
            let name = &samples[i].0;
            let mut skip = false;
            let mut k: usize = 0;
            while k < ign.len()
                invariant
                    k <= ign@.len(),
                    skip == exists|q: int| 0 <= q < k && (#[trigger] ign@[q])@ == name@,
                decreases ign@.len() - k,
            {
                if str_eq(ign[k].as_str(), name.as_str()) {
                    skip = true;
                }
                k = k + 1;
            }
            proof {
                assert(samples@.take(i + 1).drop_last() =~= samples@.take(i as int));
                assert(samples@.take(i + 1).last() == samples@[i as int]);
                let tt = traffic_total(samples@.take(i + 1), ign@);
                assert(tt.0 <= u64::MAX && tt.1 <= u64::MAX);
                if !skip {
                    assert(!exists|q: int| 0 <= q < ign@.len() && (#[trigger] ign@[q])@ == samples@[i as int].0@);
                    assert(tt.0 == d + samples@[i as int].1);
                    assert(tt.1 == u + samples@[i as int].2);
                } else {
                    assert(tt.0 == d);
                }
            }
            if !skip {
                d = d + samples[i].1;
                u = u + samples[i].2;
            }
            i = i + 1;
        }
        assert(samples@.take(i as int) =~= samples@);
        (d, u)
    }

    /// The block for `down` and `up` bytes per second, shown as `display`.
    pub fn item(&self, theme: &Theme, down: u64, up: u64, display: UsageDisplay) -> (r: I3Item)
        requires
            color_defined(self.thresholds@, down),
            color_defined(self.thresholds@, up),
            text_defined(down, min_usage(*self), display),
            text_defined(up, min_usage(*self), display),
        ensures
            block(
                r,
                "<span"@ + fg_attr_text(usage_color(*theme, self.thresholds@, down)) + ">"@ + usage_text(
                    down,
                    min_usage(*self),
                    display,
                ) + seq!['\u{2193}'] + "</span> <span"@ + fg_attr_text(usage_color(*theme, self.thresholds@, up))
                    + ">"@ + usage_text(up, min_usage(*self), display) + seq!['\u{2191}'] + "</span>"@,
                None,
                None,
                None,
                None,
                Some(I3Markup::Pango),
            ),
    {
        let mut t = String::from_str("<span");
        let f = fg_attr(self.get_color(theme, down));
        t.append(f.as_str());
        t.append(">");
        let s = self.text(down, display);
        t.append(s.as_str());
        t.push('\u{2193}');
        t.append("</span> <span");
        let f = fg_attr(self.get_color(theme, up));
        t.append(f.as_str());
        t.append(">");
        let s = self.text(up, display);
        t.append(s.as_str());
        t.push('\u{2191}');
        t.append("</span>");
        assert(t@ =~= "<span"@ + fg_attr_text(usage_color(*theme, self.thresholds@, down)) + ">"@ + usage_text(
                    down,
                    min_usage(*self),
                    display,
                ) + seq!['\u{2193}'] + "</span> <span"@ + fg_attr_text(usage_color(*theme, self.thresholds@, up))
                    + ">"@ + usage_text(up, min_usage(*self), display) + seq!['\u{2191}'] + "</span>"@);
        I3Item::new(t.as_str()).markup(I3Markup::Pango)
    }
}

} // verus!
