//! The network interface item.

use std::time::Duration;

use vstd::prelude::*;

use crate::bar_items::{block, fg_attr, fg_attr_text};
use crate::i3::bar_item::I3Item;
use crate::i3::click::{contains_modifier, I3ClickEvent, I3Modifier};
use crate::color::HexColor;
use crate::text::{contains_seq, decimal, i64_to_decimal, signed_decimal, str_contains, str_eq, u64_to_decimal};
use crate::theme::Theme;

verus! {

/// A network interface and its addresses.
#[derive(Debug, Clone)]
pub struct NetInterface {
    pub name: String,
    /// The addresses, as text.
    pub ip_addresses: Vec<String>,
}

/// The number of addresses of the first `k` interfaces.
pub open spec fn address_count(ints: Seq<NetInterface>, k: int) -> nat
    decreases k,
{
    if k <= 0 {
        0
    } else {
        address_count(ints, k - 1) + ints[k - 1].ip_addresses@.len()
    }
}

/// The active connections: every address of every interface, in order.
#[derive(Debug, Clone)]
pub struct Connections {
    inner: Vec<NetInterface>,
}

/// Where the `index`th connection is: the interface and the address in it.
pub open spec fn connection_at(ints: Seq<NetInterface>, index: int) -> Option<(int, int)> {
    if exists|i: int| 0 <= i < ints.len() && address_count(ints, i) <= index < #[trigger] address_count(ints, i + 1) {
        let i = choose|i: int| 0 <= i < ints.len() && address_count(ints, i) <= index < #[trigger] address_count(ints, i + 1);
        Some((i, index - address_count(ints, i)))
    } else {
        None
    }
}

proof fn lemma_count_mono(ints: Seq<NetInterface>, a: int, b: int)
    requires
        0 <= a <= b,
    ensures
        address_count(ints, a) <= address_count(ints, b),
    decreases b - a,
{
    if a < b {
        lemma_count_mono(ints, a, b - 1);
    }
}

impl Connections {
    /// The interfaces.
    pub closed spec fn interfaces(&self) -> Seq<NetInterface> {
        self.inner@
    }

    pub fn new(inner: Vec<NetInterface>) -> (r: Connections)
        requires
            address_count(inner@, inner@.len() as int) <= usize::MAX,
        ensures
            r.interfaces() == inner@,
    {
        Connections { inner }
    }

    /// The number of connections.
    pub fn len(&self) -> (r: usize)
        requires
            address_count(self.interfaces(), self.interfaces().len() as int) <= usize::MAX,
        ensures
            r == address_count(self.interfaces(), self.interfaces().len() as int),
    {
        let mut n: usize = 0;
        let mut i: usize = 0;
        while i < self.inner.len()
            invariant
                i <= self.inner@.len(),
                n == address_count(self.inner@, i as int),
                address_count(self.inner@, self.inner@.len() as int) <= usize::MAX,
            decreases self.inner@.len() - i,
        {
            proof {
                lemma_count_mono(self.inner@, i + 1, self.inner@.len() as int);
            }
            n = n + self.inner[i].ip_addresses.len();
            i = i + 1;
        }
        n
    }

    /// Whether there is no connection.
    pub fn is_empty(&self) -> (r: bool)
        requires
            address_count(self.interfaces(), self.interfaces().len() as int) <= usize::MAX,
        ensures
            r == (address_count(self.interfaces(), self.interfaces().len() as int) == 0),
    {
        self.len() == 0
    }

    /// The interface and the address (each by its index) of the `index`th
    /// connection, if there are that many.
    pub fn get_index(&self, index: usize) -> (r: Option<(usize, usize)>)
        ensures
            match connection_at(self.interfaces(), index as int) {
                Some((i, a)) => r == Some((i as usize, a as usize)),
                None => r is None,
            },
    {
        let mut start: usize = 0;
        let mut i: usize = 0;
        while i < self.inner.len()
            invariant
                i <= self.inner@.len(),
                start == address_count(self.inner@, i as int),
                start <= index,
            decreases self.inner@.len() - i,
        {
            let n = self.inner[i].ip_addresses.len();
            if index - start < n {
                proof {
                    let ints = self.inner@;
                    let w = choose|w: int| 0 <= w < ints.len() && address_count(ints, w) <= index < #[trigger] address_count(ints, w + 1);
                    assert(address_count(ints, i as int) <= index < address_count(ints, i + 1));
                    if w < i {
                        lemma_count_mono(ints, w + 1, i as int);
                    } else if w > i {
                        lemma_count_mono(ints, i + 1, w);
                    }
                }
                return Some((i, index - start));
            }
            start = start + n;
            i = i + 1;
        }
        proof {
            let ints = self.inner@;
            assert forall|w: int| 0 <= w < ints.len() implies !(address_count(ints, w) <= index < #[trigger] address_count(ints, w + 1)) by {
                lemma_count_mono(ints, w + 1, ints.len() as int);
            }
        }
        None
    }
}

/// An address family.
#[derive(Debug, Clone, Copy, PartialEq, Eq, Structural)]
pub enum AddrKind {
    Ipv4,
    Ipv6,
}

/// Selects connections: `interface[:type]`, where an empty interface name
/// matches every interface and the type, `ipv4` or `ipv6`, restricts the
/// addresses.
#[derive(Debug, Clone)]
pub struct InterfaceFilter {
    pub name: String,
    pub kind: Option<AddrKind>,
}

/// Where the first `:` of `s` is, if it has one.
pub open spec fn first_colon(s: Seq<char>) -> Option<int> {
    if exists|i: int| 0 <= i < s.len() && s[i] == ':' {
        Some(choose|i: int| 0 <= i < s.len() && s[i] == ':' && forall|k: int| 0 <= k < i ==> s[k] != ':')
    } else {
        None
    }
}

/// The interface name and the address type of a filter's text, or `None`
/// for an unknown type.
pub open spec fn filter_parts(s: Seq<char>) -> Option<(Seq<char>, Option<AddrKind>)> {
    match first_colon(s) {
        None => Some((s, None)),
        Some(i) => {
            let t = s.skip(i + 1);
            if t == "ipv4"@ {
                Some((s.take(i), Some(AddrKind::Ipv4)))
            } else if t == "ipv6"@ {
                Some((s.take(i), Some(AddrKind::Ipv6)))
            } else {
                None
            }
        },
    }
}

/// An address written with colons is an IPv6 address.
pub open spec fn is_ipv6_text(addr: Seq<char>) -> bool {
    contains_seq(addr, seq![':'])
}

/// Whether a filter selects address `addr` of interface `name`.
pub open spec fn filter_matches(f: InterfaceFilter, name: Seq<char>, addr: Seq<char>) -> bool {
    &&& (f.name@.len() == 0 || f.name@ == name)
    &&& match f.kind {
        None => true,
        Some(AddrKind::Ipv4) => !is_ipv6_text(addr),
        Some(AddrKind::Ipv6) => is_ipv6_text(addr),
    }
}

/// Whether some filter selects address `addr` of interface `name`.
pub open spec fn any_filter_matches(fs: Seq<InterfaceFilter>, name: Seq<char>, addr: Seq<char>) -> bool {
    exists|k: int| 0 <= k < fs.len() && filter_matches(#[trigger] fs[k], name, addr)
}

/// The addresses of interface `name` that the filters select, in order.
pub open spec fn kept_addresses(addrs: Seq<String>, name: Seq<char>, fs: Seq<InterfaceFilter>) -> Seq<String>
    decreases addrs.len(),
{
    if addrs.len() == 0 {
        Seq::empty()
    } else {
        let rest = kept_addresses(addrs.drop_last(), name, fs);
        if any_filter_matches(fs, name, addrs.last()@) {
            rest.push(addrs.last())
        } else {
            rest
        }
    }
}

impl InterfaceFilter {
    /// Reads a filter from its text.
    pub fn parse(s: &str) -> (r: Option<InterfaceFilter>)
        ensures
            match filter_parts(s@) {
                Some((n, k)) => r matches Some(f) && f.name@ == n && f.kind == k,
                None => r is None,
            },
    {
        let v = crate::text::chars_of(s);
        let n = v.len();
        let mut i: usize = 0;
        while i < n && v[i] != ':'
            invariant
                v@ == s@,
                n == v@.len(),
                i <= n,
                forall|k: int| 0 <= k < i ==> v@[k] != ':',
            decreases n - i,
        {
            i = i + 1;
        }
        let mut name = String::new();
        let mut k: usize = 0;
        while k < i
            invariant
                v@ == s@,
                k <= i <= n,
                n == v@.len(),
                name@ == v@.take(k as int),
            decreases i - k,
        {
            name.push(v[k]);
            k = k + 1;
            assert(name@ =~= v@.take(k as int));
        }
        if i == n {
            assert(v@.take(i as int) =~= s@);
            return Some(InterfaceFilter { name, kind: None });
        }
        proof {
            let w = first_colon(s@).unwrap();
            assert(s@[i as int] == ':');
            if w < i {
                assert(v@[w] != ':');
            } else if w > i {
                assert(s@[i as int] != ':');
            }
            assert(first_colon(s@) == Some(i as int));
        }
        let mut t = String::new();
        let mut m: usize = i + 1;
        while m < n
            invariant
                v@ == s@,
                i < n,
                i + 1 <= m <= n,
                n == v@.len(),
                t@ == v@.subrange(i + 1, m as int),
            decreases n - m,
        {
            t.push(v[m]);
            m = m + 1;
            assert(t@ =~= v@.subrange(i + 1, m as int));
        }
        assert(t@ =~= s@.skip(i + 1));
        if str_eq(t.as_str(), "ipv4") {
            Some(InterfaceFilter { name, kind: Some(AddrKind::Ipv4) })
        } else if str_eq(t.as_str(), "ipv6") {
            Some(InterfaceFilter { name, kind: Some(AddrKind::Ipv6) })
        } else {
            None
        }
    }

    /// Whether this filter selects address `addr` of interface `name`.
    pub fn matches(&self, name: &str, addr: &str) -> (r: bool)
        ensures
            r == filter_matches(*self, name@, addr@),
    {
        proof {
            reveal_strlit(":");
            assert(":"@ =~= seq![':']);
        }
        let name_ok = self.name.as_str().unicode_len() == 0 || str_eq(self.name.as_str(), name);
        if !name_ok {
            return false;
        }
        match self.kind {
            None => true,
            Some(AddrKind::Ipv4) => !str_contains(addr, ":"),
            Some(AddrKind::Ipv6) => str_contains(addr, ":"),
        }
    }
}

/// The interfaces with only the addresses that some filter selects; all of
/// them when there is no filter.
pub fn filtered(ints: &Vec<NetInterface>, filters: &Vec<InterfaceFilter>) -> (r: Vec<NetInterface>)
    ensures
        r@.len() == ints@.len(),
        forall|i: int| 0 <= i < r@.len() ==> (#[trigger] r@[i]).name@ == ints@[i].name@ && if filters@.len() == 0 {
            r@[i].ip_addresses@ == ints@[i].ip_addresses@
        } else {
            r@[i].ip_addresses@ == kept_addresses(ints@[i].ip_addresses@, ints@[i].name@, filters@)
        },
{
    let mut r: Vec<NetInterface> = Vec::new();
    let mut i: usize = 0;
    while i < ints.len()
        invariant
            i <= ints@.len(),
            r@.len() == i,
            forall|j: int| 0 <= j < i ==> (#[trigger] r@[j]).name@ == ints@[j].name@ && if filters@.len() == 0 {
                r@[j].ip_addresses@ == ints@[j].ip_addresses@
            } else {
                r@[j].ip_addresses@ == kept_addresses(ints@[j].ip_addresses@, ints@[j].name@, filters@)
            },
        decreases ints@.len() - i,
    {
        let it = &ints[i];
        let mut addrs: Vec<String> = Vec::new();
        let mut a: usize = 0;
        while a < it.ip_addresses.len()
            invariant
                a <= it.ip_addresses@.len(),
                filters@.len() == 0 ==> addrs@ == it.ip_addresses@.take(a as int),
                filters@.len() > 0 ==> addrs@ == kept_addresses(it.ip_addresses@.take(a as int), it.name@, filters@),
            decreases it.ip_addresses@.len() - a,
        {
            let addr = &it.ip_addresses[a];
            let mut keep = filters.len() == 0;
            let mut k: usize = 0;
            while k < filters.len()
                invariant
                    k <= filters@.len(),
                    keep == (filters@.len() == 0 || exists|q: int| 0 <= q < k && filter_matches(#[trigger] filters@[q], it.name@, addr@)),
                decreases filters@.len() - k,
            {
                if filters[k].matches(it.name.as_str(), addr.as_str()) {
                    keep = true;
                }
                k = k + 1;
            }
            proof {
                assert(it.ip_addresses@.take(a + 1).drop_last() =~= it.ip_addresses@.take(a as int));
                assert(it.ip_addresses@.take(a + 1).last() == it.ip_addresses@[a as int]);
            }
            if keep {
                addrs.push(addr.clone());
            }
            a = a + 1;
            assert(filters@.len() == 0 ==> addrs@ =~= it.ip_addresses@.take(a as int));
        }
        assert(it.ip_addresses@.take(a as int) =~= it.ip_addresses@);
        r.push(NetInterface { name: it.name.clone(), ip_addresses: addrs });
        i = i + 1;
    }
    r
}

/// What the wireless driver reports of a connection.
#[derive(Debug, Clone)]
pub struct WirelessInfo {
    /// The link quality in percent.
    pub quality: u8,
    /// The network's name.
    pub essid: String,
}

/// An interface with one address (the older, single-address display).
#[derive(Debug, Clone)]
pub struct Interface {
    pub name: String,
    /// The address, as text.
    pub addr: String,
}

/// The colour for a wireless link of quality `q`.
pub open spec fn link_color(theme: Theme, q: u8) -> HexColor {
    if q >= 80 {
        theme.green
    } else if q >= 60 {
        theme.yellow
    } else if q >= 40 {
        theme.orange
    } else {
        theme.red
    }
}

/// A wireless link is green from 80% quality, yellow from 60%, orange from
/// 40%, red below.
pub proof fn lemma_link_color_bands(theme: Theme, q: u8)
    ensures
        80 <= q ==> link_color(theme, q) == theme.green,
        60 <= q < 80 ==> link_color(theme, q) == theme.yellow,
        40 <= q < 60 ==> link_color(theme, q) == theme.orange,
        q < 40 ==> link_color(theme, q) == theme.red,
        quality_color(theme, Some(q)) == link_color(theme, q),
        quality_color(theme, None) == theme.green,
{
}

/// The address text and colour of an interface.
pub open spec fn interface_addr_text(i: Interface, theme: Theme, w: Option<WirelessInfo>) -> (Seq<char>, HexColor) {
    match w {
        Some(info) => ("("@ + i.addr@ + ")"@ + " "@ + decimal(info.quality as nat) + "% at "@ + info.essid@, link_color(
            theme,
            info.quality,
        )),
        None => ("("@ + i.addr@ + ")"@, theme.green),
    }
}

impl Interface {
    /// The long and short text of the interface, given what the wireless
    /// driver reports of it, if it is wireless.
    pub fn format(&self, theme: &Theme, wireless: Option<WirelessInfo>) -> (r: (String, String))
        ensures
            ({
                let (addr, c) = interface_addr_text(*self, *theme, wireless);
                &&& r.0@ == "<span"@ + fg_attr_text(Some(c)) + ">"@ + self.name@ + addr + "</span>"@
                &&& r.1@ == "<span"@ + fg_attr_text(Some(c)) + ">"@ + self.name@ + "</span>"@
            }),
    {
        let mut addr = String::from_str("(");
        addr.append(self.addr.as_str());
        addr.append(")");
        let c: HexColor = match &wireless {
            Some(info) => {
                addr.append(" ");
                let q = u64_to_decimal(info.quality as u64);
                addr.append(q.as_str());
                addr.append("% at ");
                addr.append(info.essid.as_str());
                if info.quality >= 80 {
                    theme.green
                } else if info.quality >= 60 {
                    theme.yellow
                } else if info.quality >= 40 {
                    theme.orange
                } else {
                    theme.red
                }
            },
            None => theme.green,
        };
        let fg = fg_attr(Some(c));
        let mut full = String::from_str("<span");
        full.append(fg.as_str());
        full.append(">");
        full.append(self.name.as_str());
        full.append(addr.as_str());
        full.append("</span>");
        let mut short = String::from_str("<span");
        short.append(fg.as_str());
        short.append(">");
        short.append(self.name.as_str());
        short.append("</span>");
        proof {
            let (a, cc) = interface_addr_text(*self, *theme, wireless);
            assert(addr@ =~= a);
        }
        (full, short)
    }
}

/// How the details of a wireless connection are shown.
#[derive(Debug, Clone, Copy, PartialEq, Eq, Structural)]
pub enum WirelessDisplay {
    Hidden,
    Percent,
    Dbm,
}

impl Default for WirelessDisplay {
    fn default() -> (r: WirelessDisplay)
        ensures
            r == WirelessDisplay::Percent,
    {
        WirelessDisplay::Percent
    }
}

/// The strength of a wireless signal.
#[derive(Debug, Clone, Copy, PartialEq, Eq, Structural)]
pub struct SignalStrength {
    /// The signal in dBm.
    pub dbm: i64,
    /// The signal quality in percent.
    pub quality: u8,
}

/// What is known of a wireless connection.
#[derive(Debug, Clone)]
pub enum ConnectionDetail {
    Empty,
    Ssid(String),
    SsidAndSignal(String, SignalStrength),
}

/// The text of a connection's details.
pub open spec fn detail_text(d: ConnectionDetail, wd: WirelessDisplay) -> Seq<char> {
    if wd == WirelessDisplay::Hidden {
        Seq::empty()
    } else {
        match d {
            ConnectionDetail::SsidAndSignal(ssid, signal) => (if wd == WirelessDisplay::Percent {
                decimal(signal.quality as nat) + "%"@
            } else {
                signed_decimal(signal.dbm as int) + " dBm"@
            }) + " at "@ + ssid@,
            ConnectionDetail::Ssid(ssid) => ssid@,
            ConnectionDetail::Empty => Seq::empty(),
        }
    }
}

impl ConnectionDetail {
    /// The details as text.
    pub fn display(&self, wireless_display: WirelessDisplay) -> (r: String)
        ensures
            r@ == detail_text(*self, wireless_display),
    {
        if wireless_display == WirelessDisplay::Hidden {
            return String::new();
        }
        match self {
            ConnectionDetail::SsidAndSignal(ssid, signal) => {
                let mut r = if wireless_display == WirelessDisplay::Percent {
                    let mut s = u64_to_decimal(signal.quality as u64);
                    s.append("%");
                    s
                } else {
                    let mut s = i64_to_decimal(signal.dbm);
                    s.append(" dBm");
                    s
                };
                r.append(" at ");
                r.append(ssid.as_str());
                r
            },
            ConnectionDetail::Ssid(ssid) => ssid.clone(),
            ConnectionDetail::Empty => String::new(),
        }
    }
}

/// The colour for a connection of signal quality `q` (wired ones have none):
/// green from 80, yellow from 60, orange from 40, red below.
pub open spec fn quality_color(theme: Theme, q: Option<u8>) -> HexColor {
    match q {
        Some(q) => if q >= 80 {
            theme.green
        } else if q >= 60 {
            theme.yellow
        } else if q >= 40 {
            theme.orange
        } else {
            theme.red
        },
        None => theme.green,
    }
}

/// One connection: an address of an interface.
#[derive(Debug, Clone)]
pub struct Connection {
    /// The interface's name.
    pub name: String,
    /// The address, as text.
    pub addr: String,
    pub detail: Option<ConnectionDetail>,
    /// The signal quality in percent, for a wireless connection.
    pub quality: Option<u8>,
}

/// The long text of a connection.
pub open spec fn connection_text(c: Connection, theme: Theme, wd: WirelessDisplay) -> Seq<char> {
    "<span"@ + fg_attr_text(Some(quality_color(theme, c.quality))) + ">"@ + c.name@ + "("@ + c.addr@ + ")"@
        + match c.detail {
        Some(d) => if wd == WirelessDisplay::Hidden {
            Seq::empty()
        } else {
            " "@ + detail_text(d, wd)
        },
        None => Seq::empty(),
    } + "</span>"@
}

/// The short text of a connection.
pub open spec fn connection_short(c: Connection, theme: Theme) -> Seq<char> {
    "<span"@ + fg_attr_text(Some(quality_color(theme, c.quality))) + ">"@ + c.name@ + "</span>"@
}

impl Connection {
    /// The long and short text of the connection.
    pub fn format(&self, theme: &Theme, wireless_display: WirelessDisplay) -> (r: (String, String))
        ensures
            r.0@ == connection_text(*self, *theme, wireless_display),
            r.1@ == connection_short(*self, *theme),
    {
        let c: HexColor = match self.quality {
            Some(q) => if q >= 80 {
                theme.green
            } else if q >= 60 {
                theme.yellow
            } else if q >= 40 {
                theme.orange
            } else {
                theme.red
            },
            None => theme.green,
        };
        let fg = fg_attr(Some(c));
        let mut full = String::from_str("<span");
        full.append(fg.as_str());
        full.append(">");
        full.append(self.name.as_str());
        full.append("(");
        full.append(self.addr.as_str());
        full.append(")");
        match &self.detail {
            Some(d) => if wireless_display != WirelessDisplay::Hidden {
                full.append(" ");
                let t = d.display(wireless_display);
                full.append(t.as_str());
            },
            None => {},
        }
        full.append("</span>");
        let mut short = String::from_str("<span");
        short.append(fg.as_str());
        short.append(">");
        short.append(self.name.as_str());
        short.append("</span>");
        proof {
            assert(full@ =~= connection_text(*self, *theme, wireless_display));
        }
        (full, short)
    }
}

/// The network item's settings: how often it refreshes, which interfaces
/// and addresses it keeps, how wireless details are shown and how often they
/// are read again.
#[derive(Debug)]
pub struct Nic {
    pub interval: Option<Duration>,
    pub filter: Vec<InterfaceFilter>,
    pub wireless_display: WirelessDisplay,
    pub wireless_refresh_interval: Option<Duration>,
}

impl Nic {
    /// How often the wireless details are read again: never where they are
    /// hidden or no interval is set.
    pub fn wireless_refresh(&self) -> (r: Option<Duration>)
        ensures
            (self.wireless_display == WirelessDisplay::Hidden || self.wireless_refresh_interval is None) ==> r is None,
            (self.wireless_display != WirelessDisplay::Hidden && self.wireless_refresh_interval is Some) ==> r
                == self.wireless_refresh_interval,
    {
        match (self.wireless_display, self.wireless_refresh_interval) {
            (WirelessDisplay::Hidden, _) | (_, None) => None,
            (_, Some(d)) => Some(d),
        }
    }

    /// Whether a click asks for the interfaces to be read again: one with
    /// the control key held.
    pub fn wants_update(click: &I3ClickEvent) -> (r: bool)
        ensures
            r == click.modifiers@.contains(I3Modifier::Control),
    {
        contains_modifier(&click.modifiers, I3Modifier::Control)
    }

    /// The block shown while no interface is connected.
    pub fn inactive_item(theme: &Theme) -> (r: I3Item)
        ensures
            block(r, "inactive"@, None, Some(theme.dim), None, None, None),
    {
        I3Item::new("inactive").color(theme.dim)
    }
}

} // verus!
