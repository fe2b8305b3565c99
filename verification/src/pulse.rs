use vstd::prelude::*;
use vstd::arithmetic::div_mod::{lemma_div_multiples_vanish, lemma_fundamental_div_mod, lemma_mod_multiples_basic};
use vstd::arithmetic::mul::lemma_mul_is_commutative;
use crate::arith::{lemma_mod_step_down, lemma_mod_step_up};
use crate::color::hex_rgb_text;
use crate::text::{contains_seq, decimal, str_contains, str_eq, u64_to_decimal};
use crate::i3::bar_item::{I3Item, I3Markup};
use crate::i3::click::{contains_modifier, I3Button, I3Modifier};
use crate::theme::Theme;

verus! {

/// Which side of the audio server an operation is about.
#[derive(Debug, Copy, Clone, PartialEq, Eq, Structural)]
pub enum Object {
    Source,
    Sink,
}

impl Object {
    /// The name of this kind of object: `sink` or `source`.
    pub fn name(&self) -> (r: &'static str)
        ensures
            r@ == match *self {
                Object::Sink => "sink"@,
                Object::Source => "source"@,
            },
    {
        match self {
            Object::Sink => "sink",
            Object::Source => "source",
        }
    }
}

/// A volume change, in percent.
#[derive(Debug, Copy, Clone, PartialEq, Eq, Structural)]
pub enum Vol {
    Incr(u32),
    Decr(u32),
    SetTo(u32),
}

impl Vol {
    /// The change as text: `+N%`, `-N%` or `=N%`.
    pub fn text(&self) -> (r: String)
        ensures
            r@ == match *self {
                Vol::Incr(n) => seq!['+'] + decimal(n as nat) + seq!['%'],
                Vol::Decr(n) => seq!['-'] + decimal(n as nat) + seq!['%'],
                Vol::SetTo(n) => seq!['='] + decimal(n as nat) + seq!['%'],
            },
    {
        let (sign, n) = match self {
            Vol::Incr(n) => ('+', *n),
            Vol::Decr(n) => ('-', *n),
            Vol::SetTo(n) => ('=', *n),
        };
        let mut r = String::new();
        r.push(sign);
        let digits = u64_to_decimal(n as u64);
        r.append(digits.as_str());
        r.push('%');
        r
    }
}

/// Whether a port can be used (jack detection).
#[derive(Debug, Copy, Clone, PartialEq, Eq, Structural)]
pub enum PortAvailable {
    /// The port does not support jack detection.
    Unknown,
    /// The port is not available, likely because the jack is not plugged in.
    No,
    /// The port is available, likely because the jack is plugged in.
    Yes,
}

/// The kind of device behind a port.
#[derive(Debug, Copy, Clone, PartialEq, Eq, Structural)]
pub enum DevicePortType {
    Unknown,
    Aux,
    Speaker,
    Headphones,
    Line,
    Mic,
    Headset,
    Handset,
    Earpiece,
    SPDIF,
    HDMI,
    TV,
    Radio,
    Video,
    USB,
    Bluetooth,
    Portable,
    Handsfree,
    Car,
    HiFi,
    Phone,
    Network,
    Analog,
}

/// The number of a port type in the audio server's protocol.
pub open spec fn port_type_code(t: DevicePortType) -> i64 {
    match t {
        DevicePortType::Unknown => 0,
        DevicePortType::Aux => 1,
        DevicePortType::Speaker => 2,
        DevicePortType::Headphones => 3,
        DevicePortType::Line => 4,
        DevicePortType::Mic => 5,
        DevicePortType::Headset => 6,
        DevicePortType::Handset => 7,
        DevicePortType::Earpiece => 8,
        DevicePortType::SPDIF => 9,
        DevicePortType::HDMI => 10,
        DevicePortType::TV => 11,
        DevicePortType::Radio => 12,
        DevicePortType::Video => 13,
        DevicePortType::USB => 14,
        DevicePortType::Bluetooth => 15,
        DevicePortType::Portable => 16,
        DevicePortType::Handsfree => 17,
        DevicePortType::Car => 18,
        DevicePortType::HiFi => 19,
        DevicePortType::Phone => 20,
        DevicePortType::Network => 21,
        DevicePortType::Analog => 22,
    }
}

impl DevicePortType {
    /// The number of this port type in the audio server's protocol.
    pub fn code(&self) -> (r: i64)
        ensures
            r == port_type_code(*self),
    {
        match self {
            DevicePortType::Unknown => 0,
            DevicePortType::Aux => 1,
            DevicePortType::Speaker => 2,
            DevicePortType::Headphones => 3,
            DevicePortType::Line => 4,
            DevicePortType::Mic => 5,
            DevicePortType::Headset => 6,
            DevicePortType::Handset => 7,
            DevicePortType::Earpiece => 8,
            DevicePortType::SPDIF => 9,
            DevicePortType::HDMI => 10,
            DevicePortType::TV => 11,
            DevicePortType::Radio => 12,
            DevicePortType::Video => 13,
            DevicePortType::USB => 14,
            DevicePortType::Bluetooth => 15,
            DevicePortType::Portable => 16,
            DevicePortType::Handsfree => 17,
            DevicePortType::Car => 18,
            DevicePortType::HiFi => 19,
            DevicePortType::Phone => 20,
            DevicePortType::Network => 21,
            DevicePortType::Analog => 22,
        }
    }
}

/// A port of a sink or a source.
#[derive(Debug, Clone, PartialEq)]
pub struct Port {
    pub name: String,
    pub description: String,
    pub available: PortAvailable,
    pub port_type: DevicePortType,
}

/// Two ports are the same when all their properties are.
pub open spec fn port_eq(a: Port, b: Port) -> bool {
    &&& a.name@ == b.name@
    &&& a.description@ == b.description@
    &&& a.available == b.available
    &&& a.port_type == b.port_type
}

/// Whether a port can be used: only ports known to be unplugged cannot.
pub open spec fn port_usable(p: Port) -> bool {
    p.available != PortAvailable::No
}

impl Port {
    /// Whether this port can be used: only ports known to be unplugged cannot.
    pub fn available(&self) -> (r: bool)
        ensures
            r == port_usable(*self),
    {
        match self.available {
            PortAvailable::No => false,
            _ => true,
        }
    }

    /// Whether two ports are the same.
    pub fn same(&self, other: &Port) -> (r: bool)
        ensures
            r == port_eq(*self, *other),
    {
        self.name == other.name && self.description == other.description
            && self.available == other.available && self.port_type == other.port_type
    }

    /// A copy of this port.
    pub fn duplicate(&self) -> (r: Port)
        ensures
            r == *self,
    {
        Port {
            name: self.name.clone(),
            description: self.description.clone(),
            available: self.available,
            port_type: self.port_type,
        }
    }
}

/// How loud "100%" is, in the audio server's volume units.
pub const VOLUME_NORMAL: u32 = 0x10000;

/// The largest channel volume (`0` when there are no channels).
pub open spec fn max_volume(v: Seq<u32>) -> u32
    decreases v.len(),
{
    if v.len() == 0 {
        0
    } else {
        let m = max_volume(v.drop_last());
        if v.last() > m { v.last() } else { m }
    }
}

/// A volume as a rounded percentage of [`VOLUME_NORMAL`].
pub open spec fn volume_percent(max: u32) -> u32 {
    ((max * 100 + VOLUME_NORMAL / 2) / VOLUME_NORMAL as int) as u32
}

/// The largest channel volume is at least every channel's volume and is one
/// of them (or `0` when there are no channels).
pub proof fn lemma_max_volume_loudest(v: Seq<u32>)
    ensures
        forall|i: int| 0 <= i < v.len() ==> v[i] <= max_volume(v),
        v.len() > 0 ==> exists|i: int| 0 <= i < v.len() && v[i] == max_volume(v),
        v.len() == 0 ==> max_volume(v) == 0,
    decreases v.len(),
{
    if v.len() > 0 {
        let w = v.drop_last();
        lemma_max_volume_loudest(w);
        assert forall|i: int| 0 <= i < v.len() implies v[i] <= max_volume(v) by {
            if i < v.len() - 1 {
                assert(v[i] == w[i]);
            }
        }
        if v.last() <= max_volume(w) && w.len() > 0 {
            let j = choose|j: int| 0 <= j < w.len() && w[j] == max_volume(w);
            assert(v[j] == w[j]);
        } else {
            assert(v[v.len() - 1] == max_volume(v));
        }
    }
}

/// The shown percentage is the volume as a percentage of `VOLUME_NORMAL`,
/// rounded to the nearest (halves up): `VOLUME_NORMAL` shows as 100 and
/// silence as 0, and a louder volume never shows a smaller percentage.
pub proof fn lemma_volume_percent_nearest(max: u32, louder: u32)
    requires
        max <= louder,
    ensures
        volume_percent(max) * VOLUME_NORMAL <= max * 100 + VOLUME_NORMAL / 2,
        max * 100 + VOLUME_NORMAL / 2 < (volume_percent(max) + 1) * VOLUME_NORMAL,
        volume_percent(VOLUME_NORMAL) == 100,
        volume_percent(0) == 0,
        volume_percent(max) <= volume_percent(louder),
{
    let n: int = 65536;
    let x = max * 100 + 32768;
    let y = louder * 100 + 32768;
    lemma_fundamental_div_mod(x, n);
    lemma_fundamental_div_mod(y, n);
    assert(x / n <= 6553600) by (nonlinear_arith)
        requires
            x <= 0xffff_ffff * 100 + 32768,
            n == 65536,
    ;
    assert(y / n <= 6553600) by (nonlinear_arith)
        requires
            y <= 0xffff_ffff * 100 + 32768,
            n == 65536,
    ;
    assert(x / n <= y / n) by (nonlinear_arith)
        requires
            x <= y,
            n == 65536,
    ;
}

/// Information about a sink or a source (an output or an input).
#[derive(Debug, Clone)]
pub struct InOut {
    pub index: u32,
    pub name: String,
    /// The volume of each channel.
    pub volume: Vec<u32>,
    pub mute: bool,
    pub ports: Vec<Port>,
    pub active_port: Option<Port>,
    pub is_source_monitor: bool,
}

/// The icon of a port type, if it has one.
pub open spec fn port_type_symbol(t: DevicePortType) -> Option<Seq<char>> {
    match t {
        DevicePortType::Aux => Some("\u{f186c} "@),
        DevicePortType::Bluetooth => Some("\u{f00b0} "@),
        DevicePortType::Car => Some("\u{f010b} "@),
        DevicePortType::Earpiece => Some("\u{f07c5} "@),
        DevicePortType::HDMI => Some("\u{f0841} "@),
        DevicePortType::Headphones => Some("\u{f02cb} "@),
        DevicePortType::Headset => Some("\u{f02ce} "@),
        DevicePortType::HiFi => Some("\u{f04c3} "@),
        DevicePortType::Mic => Some("\u{f036c} "@),
        DevicePortType::Network => Some("\u{f06f3} "@),
        DevicePortType::Radio => Some("\u{f0439} "@),
        DevicePortType::TV => Some("\u{f26c} "@),
        _ => None,
    }
}

/// The icon shown for an object: source monitors have their own; otherwise
/// the icon of the active port's type, if any.
pub open spec fn symbol_of(o: InOut) -> Option<Seq<char>> {
    if o.is_source_monitor {
        Some("\u{f186b} "@)
    } else {
        match o.active_port {
            Some(p) => port_type_symbol(p.port_type),
            None => None,
        }
    }
}

/// The icon shown when the object has none of its own.
pub open spec fn fallback_symbol(what: Object, mute: bool) -> Seq<char> {
    match (what, mute) {
        (Object::Sink, false) => "\u{f028}"@,
        (Object::Sink, true) => "\u{f026}"@,
        (Object::Source, false) => "\u{f036c}"@,
        (Object::Source, true) => "\u{f036d}"@,
    }
}

/// The first index at or after `i` of a port equal to `a`.
pub open spec fn find_port(ports: Seq<Port>, a: Port, i: int) -> Option<int>
    decreases ports.len() - i,
{
    if i < 0 || i >= ports.len() {
        None
    } else if port_eq(ports[i], a) {
        Some(i)
    } else {
        find_port(ports, a, i + 1)
    }
}

/// The index in `ports` of the active port: the first port equal to it, or
/// `0` when there is no active port or it is not among `ports`.
pub open spec fn current_port_index(ports: Seq<Port>, active: Option<Port>) -> int {
    match active {
        None => 0,
        Some(a) => match find_port(ports, a, 0) {
            Some(i) => i,
            None => 0,
        },
    }
}

proof fn lemma_find_port_bound(ports: Seq<Port>, a: Port, i: int)
    ensures
        find_port(ports, a, i) matches Some(j) ==> i <= j < ports.len() && port_eq(ports[j], a),
    decreases ports.len() - i,
{
    if 0 <= i < ports.len() && !port_eq(ports[i], a) {
        lemma_find_port_bound(ports, a, i + 1);
    }
}

/// `i` is the first index in `lo..hi` of a usable port.
pub open spec fn first_usable_in(ports: Seq<Port>, lo: int, hi: int, i: int) -> bool {
    &&& lo <= i < hi
    &&& port_usable(ports[i])
    &&& forall|k: int| lo <= k < i ==> !port_usable(#[trigger] ports[k])
}

/// `i` is the last index in `lo..hi` of a usable port.
pub open spec fn last_usable_in(ports: Seq<Port>, lo: int, hi: int, i: int) -> bool {
    &&& lo <= i < hi
    &&& port_usable(ports[i])
    &&& forall|k: int| i < k < hi ==> !port_usable(#[trigger] ports[k])
}

pub open spec fn none_usable_in(ports: Seq<Port>, lo: int, hi: int) -> bool {
    forall|k: int| lo <= k < hi ==> !port_usable(#[trigger] ports[k])
}

/// The direction in which to cycle through a list.
#[derive(Debug, Copy, Clone, PartialEq, Eq, Structural)]
pub enum Dir {
    Prev,
    Next,
}

impl Dir {
    /// The index one step from `n` in this direction.
    pub fn step(&self, n: usize) -> (r: usize)
        requires
            *self == Dir::Prev ==> n > 0,
            *self == Dir::Next ==> n < usize::MAX,
        ensures
            r == match *self {
                Dir::Prev => n - 1,
                Dir::Next => n + 1,
            },
    {
        match self {
            Dir::Prev => n - 1,
            Dir::Next => n + 1,
        }
    }
}

impl InOut {
    /// The largest channel volume.
    pub fn max_volume(&self) -> (r: u32)
        ensures
            r == max_volume(self.volume@),
            forall|i: int| 0 <= i < self.volume@.len() ==> self.volume@[i] <= r,
            self.volume@.len() > 0 ==> exists|i: int| 0 <= i < self.volume@.len() && self.volume@[i] == r,
            self.volume@.len() == 0 ==> r == 0,
    {
        proof {
            lemma_max_volume_loudest(self.volume@);
        }
        let mut m: u32 = 0;
        let mut i: usize = 0;
        assert(self.volume@.take(0) =~= Seq::<u32>::empty());
        while i < self.volume.len()
            invariant
                i <= self.volume@.len(),
                m == max_volume(self.volume@.take(i as int)),
            decreases self.volume@.len() - i,
        {
            assert(self.volume@.take(i + 1).drop_last() =~= self.volume@.take(i as int));
            if self.volume[i] > m {
                m = self.volume[i];
            }
            i = i + 1;
        }
        assert(self.volume@.take(i as int) =~= self.volume@);
        m
    }

    /// The volume as a rounded percentage of [`VOLUME_NORMAL`].
    pub fn volume_pct(&self) -> (r: u32)
        requires
            max_volume(self.volume@) * 100 + VOLUME_NORMAL / 2 <= u32::MAX,
        ensures
            r == volume_percent(max_volume(self.volume@)),
            r * VOLUME_NORMAL <= max_volume(self.volume@) * 100 + VOLUME_NORMAL / 2 < (r + 1) * VOLUME_NORMAL,
            max_volume(self.volume@) == VOLUME_NORMAL ==> r == 100,
    {
        proof {
            lemma_volume_percent_nearest(max_volume(self.volume@), max_volume(self.volume@));
        }
        let normal = VOLUME_NORMAL;
        (self.max_volume() * 100 + normal / 2) / normal
    }

    /// The icon of this object, if it has one of its own.
    pub fn port_symbol(&self) -> (r: Option<&'static str>)
        ensures
            match r {
                Some(t) => symbol_of(*self) == Some(t@),
                None => symbol_of(*self) is None,
            },
    {
        if self.is_source_monitor {
            return Some("\u{f186b} ");
        }
        match &self.active_port {
            Some(port) => match port.port_type {
                DevicePortType::Aux => Some("\u{f186c} "),
                DevicePortType::Bluetooth => Some("\u{f00b0} "),
                DevicePortType::Car => Some("\u{f010b} "),
                DevicePortType::Earpiece => Some("\u{f07c5} "),
                DevicePortType::HDMI => Some("\u{f0841} "),
                DevicePortType::Headphones => Some("\u{f02cb} "),
                DevicePortType::Headset => Some("\u{f02ce} "),
                DevicePortType::HiFi => Some("\u{f04c3} "),
                DevicePortType::Mic => Some("\u{f036c} "),
                DevicePortType::Network => Some("\u{f06f3} "),
                DevicePortType::Radio => Some("\u{f0439} "),
                DevicePortType::TV => Some("\u{f26c} "),
                _ => None,
            },
            None => None,
        }
    }

    /// The index of the active port among the ports: `0` if there is no
    /// active port or it cannot be found.
    pub fn current_port_idx(&self) -> (r: usize)
        ensures
            r == current_port_index(self.ports@, self.active_port),
            r <= self.ports@.len(),
            self.ports@.len() > 0 ==> r < self.ports@.len(),
    {
        match &self.active_port {
            None => 0,
            Some(active) => {
                let mut i: usize = 0;
                while i < self.ports.len()
                    invariant
                        i <= self.ports@.len(),
                        self.active_port == Some(*active),
                        find_port(self.ports@, *active, 0) == find_port(self.ports@, *active, i as int),
                    decreases self.ports@.len() - i,
                {
                    if self.ports[i].same(active) {
                        proof {
                            lemma_find_port_bound(self.ports@, *active, 0);
                            assert(port_eq(self.ports@[i as int], *active));
                            assert(find_port(self.ports@, *active, i as int) == Some(i as int));
                            assert(find_port(self.ports@, *active, 0) == Some(i as int));
                        }
                        return i;
                    }
                    i = i + 1;
                }
                proof {
                    lemma_find_port_bound(self.ports@, *active, 0);
                }
                0
            },
        }
    }

    /// The first usable port.
    pub fn first_port(&self) -> (r: Option<&Port>)
        ensures
            match r {
                Some(p) => exists|f: int| first_port_at(*self, f) && *p == self.ports@[f],
                None => none_usable_in(self.ports@, 0, self.ports@.len() as int),
            },
    {
        let mut i: usize = 0;
        while i < self.ports.len()
            invariant
                i <= self.ports@.len(),
                none_usable_in(self.ports@, 0, i as int),
            decreases self.ports@.len() - i,
        {
            if self.ports[i].available() {
                assert(first_port_at(*self, i as int));
                return Some(&self.ports[i]);
            }
            i = i + 1;
        }
        None
    }

    /// The next usable port after the active one (`Next`), or the closest
    /// usable one before it (`Prev`); there is no wrapping around.
    pub fn next_port(&self, dir: Dir) -> (r: Option<&Port>)
        requires
            dir == Dir::Next ==> current_port_index(self.ports@, self.active_port) < self.ports@.len(),
        ensures
            match r {
                Some(p) => exists|i: int| port_step(*self, dir, i) && *p == self.ports@[i],
                None => no_port_step(*self, dir),
            },
    {
        let current_idx = self.current_port_idx();
        let n = self.ports.len();
        let ghost c = current_port_index(self.ports@, self.active_port);
        match dir {
            Dir::Next => {
                let mut i = current_idx + 1;
                while i < self.ports.len()
                    invariant
                        dir == Dir::Next,
                        current_idx < self.ports@.len(),
                        current_idx as int == c,
                        c == current_port_index(self.ports@, self.active_port),
                        n == self.ports@.len(),
                        current_idx + 1 <= i <= self.ports@.len(),
                        none_usable_in(self.ports@, current_idx + 1, i as int),
                    decreases self.ports@.len() - i,
                {
                    if self.ports[i].available() {
                        assert(first_usable_in(self.ports@, c + 1, n as int, i as int));
                        let r = Some(&self.ports[i]);
                        assert(port_step(*self, dir, i as int));
                        return r;
                    }
                    i = i + 1;
                }
                None
            },
            Dir::Prev => {
                let mut i = current_idx;
                while i > 0
                    invariant
                        dir == Dir::Prev,
                        current_idx <= self.ports@.len(),
                        current_idx as int == c,
                        c == current_port_index(self.ports@, self.active_port),
                        n == self.ports@.len(),
                        i <= current_idx,
                        none_usable_in(self.ports@, i as int, current_idx as int),
                    decreases i,
                {
                    i = i - 1;
                    if self.ports[i].available() {
                        assert(last_usable_in(self.ports@, 0, c, i as int));
                        let r = Some(&self.ports[i]);
                        assert(port_step(*self, dir, i as int));
                        return r;
                    }
                }
                None
            },
        }
    }
}



/// The text of an object in the bar: a pango span in the theme's foreground
/// colour (dim when muted) holding the object's icon and its volume.
pub open spec fn inout_text(o: InOut, what: Object, theme: Theme) -> Seq<char> {
    let color = if o.mute { theme.dim } else { theme.fg };
    let symbol = match symbol_of(o) {
        Some(t) => t,
        None => fallback_symbol(what, o.mute),
    };
    "<span foreground=\""@ + hex_rgb_text(color) + "\">"@ + symbol + " "@
        + decimal(volume_percent(max_volume(o.volume@)) as nat) + "%</span>"@
}

/// A desktop notification that the audio item wants to send.
#[derive(Debug, Clone)]
pub enum Command {
    /// The volume or mute state of an object changed.
    NotifyVolume { name: String, volume: u32, mute: bool },
    /// A source or sink appeared.
    NotifyNewSourceSink { name: String, what: String },
    /// The default source or sink changed.
    NotifyDefaultsChange { name: String, what: String },
}

impl InOut {
    /// The text of this object in the bar.
    pub fn format(&self, what: Object, theme: &Theme) -> (r: String)
        requires
            max_volume(self.volume@) * 100 + VOLUME_NORMAL / 2 <= u32::MAX,
        ensures
            r@ == inout_text(*self, what, *theme),
    {
        let color = if self.mute { theme.dim } else { theme.fg };
        let symbol = match self.port_symbol() {
            Some(t) => t,
            None => match (what, self.mute) {
                (Object::Sink, false) => "\u{f028}",
                (Object::Sink, true) => "\u{f026}",
                (Object::Source, false) => "\u{f036c}",
                (Object::Source, true) => "\u{f036d}",
            },
        };
        let mut r = String::from_str("<span foreground=\"");
        let c = color.display_rgb();
        r.append(c.as_str());
        r.append("\">");
        r.append(symbol);
        r.append(" ");
        let pct = u64_to_decimal(self.volume_pct() as u64);
        r.append(pct.as_str());
        r.append("%</span>");
        r
    }

    /// The notification sent when this object's volume or mute state changed.
    pub fn notify_volume_mute(&self) -> (c: Command)
        requires
            max_volume(self.volume@) * 100 + VOLUME_NORMAL / 2 <= u32::MAX,
        ensures
            c matches Command::NotifyVolume { name, volume, mute } && name@ == self.name@
                && volume == volume_percent(max_volume(self.volume@)) && mute == self.mute,
    {
        Command::NotifyVolume { name: self.name.clone(), volume: self.volume_pct(), mute: self.mute }
    }

    /// The notification sent when this object appeared; `what` is `sink` or
    /// `source`.
    pub fn notify_new(&self, what: &str) -> (c: Command)
        ensures
            c matches Command::NotifyNewSourceSink { name, what: w } && name@ == self.name@ && w@ == what@,
    {
        Command::NotifyNewSourceSink { name: self.name.clone(), what: String::from_str(what) }
    }

    /// A copy of this object.
    pub fn duplicate(&self) -> (r: InOut)
        ensures
            r.index == self.index,
            r.name@ == self.name@,
            r.volume@ == self.volume@,
            r.mute == self.mute,
            r.ports@ == self.ports@,
            r.active_port == self.active_port,
            r.is_source_monitor == self.is_source_monitor,
    {
        let mut ports: Vec<Port> = Vec::new();
        let mut i: usize = 0;
        while i < self.ports.len()
            invariant
                i <= self.ports@.len(),
                ports@ == self.ports@.take(i as int),
            decreases self.ports@.len() - i,
        {
            ports.push(self.ports[i].duplicate());
            i = i + 1;
            assert(ports@ =~= self.ports@.take(i as int));
        }
        assert(ports@ =~= self.ports@);
        let mut volume: Vec<u32> = Vec::new();
        let mut j: usize = 0;
        while j < self.volume.len()
            invariant
                j <= self.volume@.len(),
                volume@ == self.volume@.take(j as int),
            decreases self.volume@.len() - j,
        {
            volume.push(self.volume[j]);
            j = j + 1;
            assert(volume@ =~= self.volume@.take(j as int));
        }
        assert(volume@ =~= self.volume@);
        InOut {
            index: self.index,
            name: self.name.clone(),
            volume,
            mute: self.mute,
            ports,
            active_port: match &self.active_port {
                Some(p) => Some(p.duplicate()),
                None => None,
            },
            is_source_monitor: self.is_source_monitor,
        }
    }
}

/// Which notifications the audio item sends.
#[derive(Debug, Clone, Copy, PartialEq, Eq, Structural)]
pub enum NotificationSetting {
    /// No notifications are sent (the default)
    Off,
    /// When volumes are changed
    VolumeMute,
    /// When a source or sink is added
    NewSourceSink,
    /// When the default source or sink has changed
    DefaultsChange,
    /// All notifications
    All,
}

impl Default for NotificationSetting {
    fn default() -> (r: NotificationSetting)
        ensures
            r == NotificationSetting::Off,
    {
        NotificationSetting::Off
    }
}

impl NotificationSetting {
    /// Whether a notification of kind `ask` is sent under this setting.
    pub fn should_notify(&self, ask: Self) -> (r: bool)
        ensures
            r == (*self == NotificationSetting::All || *self == ask),
    {
        match self {
            NotificationSetting::All => true,
            other => *other == ask,
        }
    }
}


/// `i` is the first object in `objs` named `name`.
pub open spec fn first_named(objs: Seq<InOut>, name: Seq<char>, i: int) -> bool {
    &&& 0 <= i < objs.len()
    &&& objs[i].name@ == name
    &&& forall|k: int| 0 <= k < i ==> (#[trigger] objs[k]).name@ != name
}

/// No object in `objs` is named `name`.
pub open spec fn none_named(objs: Seq<InOut>, name: Seq<char>) -> bool {
    forall|k: int| 0 <= k < objs.len() ==> (#[trigger] objs[k]).name@ != name
}

/// The port that `next_port` picks for `o` in direction `dir` is `o.ports[i]`.
pub open spec fn port_step(o: InOut, dir: Dir, i: int) -> bool {
    let c = current_port_index(o.ports@, o.active_port);
    match dir {
        Dir::Next => first_usable_in(o.ports@, c + 1, o.ports@.len() as int, i),
        Dir::Prev => last_usable_in(o.ports@, 0, c, i),
    }
}

/// `next_port` picks no port for `o` in direction `dir`.
pub open spec fn no_port_step(o: InOut, dir: Dir) -> bool {
    let c = current_port_index(o.ports@, o.active_port);
    match dir {
        Dir::Next => none_usable_in(o.ports@, c + 1, o.ports@.len() as int),
        Dir::Prev => none_usable_in(o.ports@, 0, c),
    }
}

/// Cycling ports on `o` moves to another port: there is an active port and
/// `next_port` picks a different one, `o.ports[i]`.
pub open spec fn port_change(o: InOut, dir: Dir, i: int) -> bool {
    &&& o.active_port matches Some(a)
    &&& port_step(o, dir, i)
    &&& !port_eq(a, o.ports@[i])
}

/// Cycling ports on `o` stays on the same port (or has none to move to).
pub open spec fn no_port_change(o: InOut, dir: Dir) -> bool {
    forall|i: int| !port_change(o, dir, i)
}

/// Cycling objects from `start` lands on the object at `p`: it is the first
/// one that is not a source monitor in the cycling order.
pub open spec fn cycled_to(objs: Seq<InOut>, start: int, dir: Dir, p: int) -> bool {
    exists|j: int| #![trigger cycle_pos(dir, start, objs.len() as int, j)]
        0 <= j < 2 * objs.len() && p == cycle_pos(dir, start, objs.len() as int, j)
        && !objs[p].is_source_monitor
        && forall|k: int| 0 <= k < j ==> (#[trigger] objs[cycle_pos(dir, start, objs.len() as int, k)]).is_source_monitor
}

/// Every object is a source monitor, so cycling finds nothing.
pub open spec fn none_cycled(objs: Seq<InOut>, start: int, dir: Dir) -> bool {
    forall|j: int| 0 <= j < 2 * objs.len() ==> (#[trigger] objs[cycle_pos(dir, start, objs.len() as int, j)]).is_source_monitor
}

/// `f` is the first usable port of `o`.
pub open spec fn first_port_at(o: InOut, f: int) -> bool {
    first_usable_in(o.ports@, 0, o.ports@.len() as int, f)
}

/// The active port of `o` is the same as its port at `f`.
pub open spec fn active_is(o: InOut, f: int) -> bool {
    match o.active_port {
        Some(ap) => port_eq(ap, o.ports@[f]),
        None => false,
    }
}

/// What cycling the default object does, as decided by [`cycle_action`].
#[derive(Debug, Clone)]
pub enum CycleAction {
    /// Nothing to do: the default object is unknown, or there is no other
    /// object to move to.
    Nothing,
    /// Switch the object with index `object_index` to the port `port`.
    SetPort { object_index: u32, port: String },
    /// Make the object named `name` the default.
    SetDefault { name: String },
    /// Switch the object with index `object_index` to the port `port`; then,
    /// if that did not make it the default already, make the object named
    /// `name` the default.
    SetPortThenDefault { object_index: u32, port: String, name: String },
}

/// `a` is the action that cycling `objs` in direction `dir` calls for, when
/// the default object is named `current`: first through the ports of the
/// default object, then on to the next object that is not a source monitor,
/// choosing its first usable port.
pub open spec fn is_cycle_action(objs: Seq<InOut>, current: Seq<char>, dir: Dir, a: CycleAction) -> bool {
    match a {
        CycleAction::Nothing => none_named(objs, current) || exists|c: int| #![trigger objs[c]]
            first_named(objs, current, c) && no_port_change(objs[c], dir) && (none_cycled(objs, c, dir)
                || exists|p: int| #![trigger objs[p]] cycled_to(objs, c, dir, p) && objs[p].index == objs[c].index),
        CycleAction::SetPort { object_index, port } => exists|c: int, i: int| #![trigger objs[c], port_step(objs[c], dir, i)]
            first_named(objs, current, c) && port_change(objs[c], dir, i) && object_index == objs[c].index
                && port@ == objs[c].ports@[i].name@,
        CycleAction::SetDefault { name } => exists|c: int, p: int| #![trigger objs[c], objs[p]]
            first_named(objs, current, c) && no_port_change(objs[c], dir) && cycled_to(objs, c, dir, p)
                && objs[p].index != objs[c].index && name@ == objs[p].name@
                && (none_usable_in(objs[p].ports@, 0, objs[p].ports@.len() as int)
                    || exists|f: int| #![trigger objs[p].ports@[f]] first_port_at(objs[p], f)
                        && active_is(objs[p], f)),
        CycleAction::SetPortThenDefault { object_index, port, name } => exists|c: int, p: int, f: int|
            #![trigger objs[c], objs[p], objs[p].ports@[f]]
            first_named(objs, current, c) && no_port_change(objs[c], dir) && cycled_to(objs, c, dir, p)
                && objs[p].index != objs[c].index && first_port_at(objs[p], f)
                && !active_is(objs[p], f)
                && object_index == objs[p].index && port@ == objs[p].ports@[f].name@ && name@ == objs[p].name@,
    }
}

/// Finds the first object named `name`.
fn find_named(objs: &Vec<InOut>, name: &str) -> (r: Option<usize>)
    ensures
        match r {
            Some(i) => first_named(objs@, name@, i as int),
            None => none_named(objs@, name@),
        },
{
    let mut i: usize = 0;
    while i < objs.len()
        invariant
            i <= objs@.len(),
            forall|k: int| 0 <= k < i ==> (#[trigger] objs@[k]).name@ != name@,
        decreases objs@.len() - i,
    {
        if str_eq(objs[i].name.as_str(), name) {
            return Some(i);
        }
        i = i + 1;
    }
    None
}


/// Decides what cycling the default object (named `current`) in direction
/// `dir` does: move to the next port of the default object if it has one;
/// otherwise move on to the next object that is not a source monitor, and
/// switch it to its first usable port when that is not already its active
/// port.
#[verifier::rlimit(50)]
pub fn cycle_action(objects: &Vec<InOut>, current: &str, dir: Dir) -> (a: CycleAction)
    requires
        objects@.len() * 2 <= usize::MAX,
        forall|c: int| #![trigger objects@[c]] first_named(objects@, current@, c) && dir == Dir::Next
            ==> current_port_index(objects@[c].ports@, objects@[c].active_port) < objects@[c].ports@.len(),
    ensures
        is_cycle_action(objects@, current@, dir, a),
{
    let curr_idx = match find_named(objects, current) {
        Some(i) => i,
        None => return CycleAction::Nothing,
    };
    let curr_obj = &objects[curr_idx];
    assert(first_named(objects@, current@, curr_idx as int));
    let next = curr_obj.next_port(dir);
    match (&curr_obj.active_port, next) {
        (Some(curr), Some(next)) => {
            if !curr.same(next) {
                proof {
                    let i = choose|i: int| port_step(*curr_obj, dir, i) && *next == curr_obj.ports@[i];
                    assert(port_change(objects@[curr_idx as int], dir, i));
                }
                return CycleAction::SetPort { object_index: curr_obj.index, port: next.name.clone() };
            }
        },
        _ => {},
    }
    proof {
        let o = objects@[curr_idx as int];
        assert forall|i: int| !port_change(o, dir, i) by {
            if port_change(o, dir, i) {
                let w = choose|w: int| port_step(o, dir, w) && *next.unwrap() == o.ports@[w];
                assert(w == i) by {
                    if w < i { assert(!port_usable(o.ports@[w])); }
                    if w > i { assert(!port_usable(o.ports@[i])); }
                }
            }
        }
        assert(no_port_change(o, dir));
    }
    let pred = |o: &&InOut| -> (b: bool)
        ensures
            b == !o.is_source_monitor,
        {
            !o.is_source_monitor
        };
    let found = dir.cycle(curr_idx, objects.as_slice(), pred);
    let next_obj = match found {
        Some(obj) => obj,
        None => {
            proof {
                let n = objects@.len() as int;
                assert forall|j: int| 0 <= j < 2 * n implies
                    (#[trigger] objects@[cycle_pos(dir, curr_idx as int, n, j)]).is_source_monitor by {
                    assert(pred.ensures((&&objects@[cycle_pos(dir, curr_idx as int, n, j)],), false));
                }
                assert(none_cycled(objects@, curr_idx as int, dir));
            }
            return CycleAction::Nothing;
        },
    };
    let ghost p: int;
    proof {
        let n = objects@.len() as int;
        let j = choose|j: int| #![trigger cycle_pos(dir, curr_idx as int, n, j)] 0 <= j < 2 * n && {
            let q = cycle_pos(dir, curr_idx as int, n, j);
            &&& *next_obj == objects@[q]
            &&& pred.ensures((&&objects@[q],), true)
            &&& forall|k: int| 0 <= k < j ==> #[trigger] pred.ensures((&&objects@[cycle_pos(dir, curr_idx as int, n, k)],), false)
        };
        p = cycle_pos(dir, curr_idx as int, n, j);
        assert forall|k: int| 0 <= k < j implies (#[trigger] objects@[cycle_pos(dir, curr_idx as int, n, k)]).is_source_monitor by {
            assert(pred.ensures((&&objects@[cycle_pos(dir, curr_idx as int, n, k)],), false));
        }
        assert(!objects@[p].is_source_monitor);
        assert(cycled_to(objects@, curr_idx as int, dir, p));
    }
    if curr_obj.index == next_obj.index {
        return CycleAction::Nothing;
    }
    let next_name = next_obj.name.clone();
    let next_prt = match next_obj.first_port() {
        Some(port) => port,
        None => return CycleAction::SetDefault { name: next_name },
    };
    let same = match &next_obj.active_port {
        Some(ap) => ap.same(next_prt),
        None => false,
    };
    proof {
        let f = choose|f: int| first_port_at(*next_obj, f) && *next_prt == next_obj.ports@[f];
        assert(first_port_at(objects@[p], f));
        assert(same == active_is(objects@[p], f));
    }
    if same {
        return CycleAction::SetDefault { name: next_name };
    }
    CycleAction::SetPortThenDefault { object_index: next_obj.index, port: next_prt.name.clone(), name: next_name }
}


/// How to change the channel volumes of an object. The change is applied to
/// the channels by the audio server's client library (its channel-volume
/// increase, clamped increase, decrease and set), which keeps the
/// proportions between the channels.
#[derive(Debug, Clone, Copy, PartialEq, Eq, Structural)]
pub enum VolumeChange {
    /// Lower every channel so the loudest drops by `amount`.
    Decrease(u32),
    /// Raise every channel so the loudest rises by `amount`, never above
    /// `limit` when one is given.
    Increase { amount: u32, limit: Option<u32> },
    /// Set every channel to this volume.
    SetAll(u32),
}

/// One percent of [`VOLUME_NORMAL`], rounded down.
pub open spec fn volume_step() -> u32 {
    (VOLUME_NORMAL / 100) as u32
}

/// The step that brings a volume at `current_pct` percent up to the next
/// multiple of `inc_pct` percent (a full `inc_pct` when it is on one
/// already), in volume units; lowering uses the same step.
pub open spec fn step_amount(current_max: u32, inc_pct: u32) -> u32 {
    let current_pct = current_max / volume_step();
    ((inc_pct - current_pct % inc_pct) * volume_step()) as u32
}

/// Whether a volume change can be computed without overflow: increments
/// must be positive, and every percentage must fit once converted to volume
/// units.
pub open spec fn volume_change_ok(vol: Vol, max_volume: Option<u32>) -> bool {
    match vol {
        Vol::Incr(i) => 0 < i && i * volume_step() <= u32::MAX
            && (max_volume matches Some(m) ==> m * volume_step() <= u32::MAX),
        Vol::Decr(i) => 0 < i && i * volume_step() <= u32::MAX,
        Vol::SetTo(p) => p * volume_step() <= u32::MAX,
    }
}

/// A step always moves the volume: for an increment of `i` percent, the
/// amount is a positive whole number of percent (of `VOLUME_NORMAL / 100`
/// units each), at most `i` percent, and taking the current percentage `p`
/// up by it lands on the next multiple of `i` above `p`; when `p` is already
/// a multiple, the step is exactly `i` percent.
pub proof fn lemma_step_amount_next_multiple(current_max: u32, i: u32)
    requires
        i > 0,
        i * (VOLUME_NORMAL / 100) <= u32::MAX,
    ensures
        ({
            let s = (VOLUME_NORMAL / 100) as int;
            let p = (current_max as int) / s;
            let a = step_amount(current_max, i) as int;
            &&& a > 0
            &&& a % s == 0
            &&& a <= i * s
            &&& (p + a / s) % (i as int) == 0
            &&& p < p + a / s <= p + i
            &&& p % (i as int) == 0 ==> a == i * s
        }),
{
    let s: int = 655;
    assert(VOLUME_NORMAL / 100 == 655);
    let p = (current_max as int) / s;
    let ii = i as int;
    let r = p % ii;
    lemma_fundamental_div_mod(p, ii);
    assert(0 <= r < ii);
    let k = ii - r;
    assert(1 <= k <= ii);
    assert(k * s <= ii * s) by (nonlinear_arith)
        requires
            k <= ii,
            s > 0,
    ;
    assert(step_amount(current_max, i) as int == k * s);
    lemma_mul_is_commutative(k, s);
    lemma_div_multiples_vanish(k, s);
    lemma_mod_multiples_basic(k, s);
    assert((k * s) / s == k);
    let q = p / ii;
    assert(p + k == ii * (q + 1)) by (nonlinear_arith)
        requires
            p == ii * q + r,
            k == ii - r,
    ;
    lemma_mul_is_commutative(ii, q + 1);
    lemma_mod_multiples_basic(q + 1, ii);
}

/// Decides how to change an object's volume, given the loudest of its
/// channels. Both directions move by the step that takes the current
/// percentage up to the next multiple of the increment (a whole increment
/// when it is on one): raising lands on a multiple, lowering goes down by
/// that same amount, which lands on a multiple only when the volume was on
/// one. Raising stops at `max_volume` percent when one is set.
pub fn volume_change(current_max: u32, vol: Vol, max_volume: Option<u32>) -> (c: VolumeChange)
    requires
        volume_change_ok(vol, max_volume),
    ensures
        c == match vol {
            Vol::Decr(i) => VolumeChange::Decrease(step_amount(current_max, i)),
            Vol::Incr(i) => VolumeChange::Increase {
                amount: step_amount(current_max, i),
                limit: match max_volume {
                    Some(m) => Some((m * volume_step()) as u32),
                    None => None,
                },
            },
            Vol::SetTo(p) => VolumeChange::SetAll((p * volume_step()) as u32),
        },
        ({
            let s = (VOLUME_NORMAL / 100) as int;
            let p = (current_max as int) / s;
            match c {
                VolumeChange::Increase { amount, limit } => vol matches Vol::Incr(i) && amount > 0 && (amount as int)
                    % s == 0 && amount <= i * s && (p + (amount as int) / s) % (i as int) == 0 && (p % (i as int) == 0
                    ==> amount == i * s) && limit == match max_volume {
                    Some(m) => Some((m * s) as u32),
                    None => None,
                },
                VolumeChange::Decrease(amount) => vol matches Vol::Decr(i) && amount > 0 && (amount as int) % s == 0
                    && amount <= i * s && (p % (i as int) == 0 ==> amount == i * s),
                VolumeChange::SetAll(v) => vol matches Vol::SetTo(q) && v == q * s,
            }
        }),
{
    proof {
        match vol {
            Vol::Incr(i) => lemma_step_amount_next_multiple(current_max, i),
            Vol::Decr(i) => lemma_step_amount_next_multiple(current_max, i),
            _ => {},
        }
    }
    let step = VOLUME_NORMAL / 100;
    let current_pct = current_max / step;
    match vol {
        Vol::Decr(inc_pct) => {
            proof {
                let r = current_pct % inc_pct;
                assert(r < inc_pct);
                assert((inc_pct - r) * 655 <= inc_pct * 655) by (nonlinear_arith)
                    requires r < inc_pct;
            }
            VolumeChange::Decrease((inc_pct - (current_pct % inc_pct)) * step)
        },
        Vol::Incr(inc_pct) => {
            proof {
                let r = current_pct % inc_pct;
                assert(r < inc_pct);
                assert((inc_pct - r) * 655 <= inc_pct * 655) by (nonlinear_arith)
                    requires r < inc_pct;
            }
            let amount = (inc_pct - (current_pct % inc_pct)) * step;
            let limit = match max_volume {
                Some(max_pct) => Some(max_pct * step),
                None => None,
            };
            VolumeChange::Increase { amount, limit }
        },
        Vol::SetTo(pct) => VolumeChange::SetAll(pct * step),
    }
}

/// What a click on the audio item does.
#[derive(Debug, Clone, Copy, PartialEq, Eq, Structural)]
pub enum PulseAction {
    /// Cycle the default object's ports, then the objects themselves.
    Cycle(Object, Dir),
    /// Mute or unmute the default object.
    ToggleMute(Object),
    /// Change the default object's volume.
    Volume(Object, Vol),
    /// Nothing.
    Ignore,
}

/// The action for a click: the left button cycles, the middle one mutes and
/// scrolling changes the volume, of the output; with shift held, of the
/// input.
pub open spec fn click_action_spec(button: I3Button, shift: bool, increment: u32) -> PulseAction {
    let what = if shift { Object::Source } else { Object::Sink };
    match button {
        I3Button::Left => PulseAction::Cycle(what, Dir::Next),
        I3Button::Middle => PulseAction::ToggleMute(what),
        I3Button::ScrollUp => PulseAction::Volume(what, Vol::Incr(increment)),
        I3Button::ScrollDown => PulseAction::Volume(what, Vol::Decr(increment)),
        _ => PulseAction::Ignore,
    }
}

/// Scrolling up raises and scrolling down lowers the volume by the
/// increment, the middle button toggles mute and the left one moves to the
/// next device; holding shift addresses the input instead of the output.
pub proof fn lemma_click_action_meaning(shift: bool, increment: u32)
    ensures
        ({
            let what = if shift { Object::Source } else { Object::Sink };
            &&& click_action_spec(I3Button::ScrollUp, shift, increment) == PulseAction::Volume(what, Vol::Incr(increment))
            &&& click_action_spec(I3Button::ScrollDown, shift, increment) == PulseAction::Volume(what, Vol::Decr(increment))
            &&& click_action_spec(I3Button::Middle, shift, increment) == PulseAction::ToggleMute(what)
            &&& click_action_spec(I3Button::Left, shift, increment) == PulseAction::Cycle(what, Dir::Next)
            &&& click_action_spec(I3Button::Right, shift, increment) == PulseAction::Ignore
        }),
{
}

/// Decides what a click on the audio item does.
pub fn click_action(button: I3Button, modifiers: &Vec<I3Modifier>, increment: u32) -> (a: PulseAction)
    ensures
        a == click_action_spec(button, modifiers@.contains(I3Modifier::Shift), increment),
{
    let shift = contains_modifier(modifiers, I3Modifier::Shift);
    let what = if shift { Object::Source } else { Object::Sink };
    match button {
        I3Button::Left => PulseAction::Cycle(what, Dir::Next),
        I3Button::Middle => PulseAction::ToggleMute(what),
        I3Button::ScrollUp => PulseAction::Volume(what, Vol::Incr(increment)),
        I3Button::ScrollDown => PulseAction::Volume(what, Vol::Decr(increment)),
        _ => PulseAction::Ignore,
    }
}

/// A yes or no, in the words a user may type.
#[derive(Debug, Clone, Copy, PartialEq, Eq, Structural)]
pub enum Bool {
    On,
    Off,
    Yes,
    No,
    True,
    False,
    Enabled,
    Disabled,
}

/// Whether a word means yes.
pub open spec fn bool_value(b: Bool) -> bool {
    match b {
        Bool::On | Bool::Yes | Bool::True | Bool::Enabled => true,
        Bool::Off | Bool::No | Bool::False | Bool::Disabled => false,
    }
}

impl From<Bool> for bool {
    fn from(value: Bool) -> (r: bool) {
        match value {
            Bool::On => true,
            Bool::Off => false,
            Bool::Yes => true,
            Bool::No => false,
            Bool::True => true,
            Bool::False => false,
            Bool::Enabled => true,
            Bool::Disabled => false,
        }
    }
}

impl vstd::std_specs::convert::FromSpecImpl<Bool> for bool {
    open spec fn obeys_from_spec() -> bool {
        true
    }

    open spec fn from_spec(v: Bool) -> bool {
        bool_value(v)
    }
}

/// A command sent to the audio item over IPC.
#[derive(Debug, Clone)]
pub enum PulseCommand {
    Info,
    List { what: Object },
    VolumeUp { what: Object },
    VolumeDown { what: Object },
    VolumeSet { what: Object, vol: u32 },
    Mute { what: Object, mute: Bool },
    MuteToggle { what: Object },
    SetDefault { what: Object, name: String },
}

/// What the audio item does for a command: answer at once, or ask the
/// server for a change and answer with the given message if it fails.
#[derive(Debug, Clone)]
pub enum CustomPulseAction {
    /// Answer with the state of the server.
    Info,
    /// Answer with the list of sinks or sources.
    List(Object),
    SetVolume(Object, Vol, String),
    SetMute(Object, bool, String),
    ToggleMute(Object, String),
    SetDefault(Object, String, String),
}

/// The name of an object kind.
pub open spec fn object_text(o: Object) -> Seq<char> {
    match o {
        Object::Sink => "sink"@,
        Object::Source => "source"@,
    }
}

/// Decides what the audio item does for a command; volume steps are
/// `increment` percent.
pub fn custom_action(cmd: PulseCommand, increment: u32) -> (r: CustomPulseAction)
    ensures
        match cmd {
            PulseCommand::Info => r is Info,
            PulseCommand::List { what } => r == CustomPulseAction::List(what),
            PulseCommand::VolumeUp { what } => r matches CustomPulseAction::SetVolume(o, v, m) && o == what
                && v == Vol::Incr(increment) && m@ == "failed to increment "@ + object_text(what) + " volume"@,
            PulseCommand::VolumeDown { what } => r matches CustomPulseAction::SetVolume(o, v, m) && o == what
                && v == Vol::Decr(increment) && m@ == "failed to decrement "@ + object_text(what) + " volume"@,
            PulseCommand::VolumeSet { what, vol } => r matches CustomPulseAction::SetVolume(o, v, m) && o == what
                && v == Vol::SetTo(vol) && m@ == "failed to set "@ + object_text(what) + " volume"@,
            PulseCommand::Mute { what, mute } => r matches CustomPulseAction::SetMute(o, b, m) && o == what
                && b == bool_value(mute) && m@ == "failed to set mute for "@ + object_text(what),
            PulseCommand::MuteToggle { what } => r matches CustomPulseAction::ToggleMute(o, m) && o == what
                && m@ == "failed to toggle mute for "@ + object_text(what),
            PulseCommand::SetDefault { what, name } => r matches CustomPulseAction::SetDefault(o, n, m) && o
                == what && n == name && m@ == "failed to set default "@ + object_text(what) + " to "@ + name@
                + ", is the name right?"@,
        },
{
    match cmd {
        PulseCommand::Info => CustomPulseAction::Info,
        PulseCommand::List { what } => CustomPulseAction::List(what),
        PulseCommand::VolumeUp { what } => {
            let mut m = String::from_str("failed to increment ");
            m.append(what.name());
            m.append(" volume");
            CustomPulseAction::SetVolume(what, Vol::Incr(increment), m)
        },
        PulseCommand::VolumeDown { what } => {
            let mut m = String::from_str("failed to decrement ");
            m.append(what.name());
            m.append(" volume");
            CustomPulseAction::SetVolume(what, Vol::Decr(increment), m)
        },
        PulseCommand::VolumeSet { what, vol } => {
            let mut m = String::from_str("failed to set ");
            m.append(what.name());
            m.append(" volume");
            CustomPulseAction::SetVolume(what, Vol::SetTo(vol), m)
        },
        PulseCommand::Mute { what, mute } => {
            let mut m = String::from_str("failed to set mute for ");
            m.append(what.name());
            let b: bool = bool::from(mute);
            CustomPulseAction::SetMute(what, b, m)
        },
        PulseCommand::MuteToggle { what } => {
            let mut m = String::from_str("failed to toggle mute for ");
            m.append(what.name());
            CustomPulseAction::ToggleMute(what, m)
        },
        PulseCommand::SetDefault { what, name } => {
            let mut m = String::from_str("failed to set default ");
            m.append(what.name());
            m.append(" to ");
            m.append(name.as_str());
            m.append(", is the name right?");
            CustomPulseAction::SetDefault(what, name, m)
        },
    }
}

/// The first object with index `index`.
pub open spec fn first_with_index(objs: Seq<InOut>, index: u32, k: int) -> bool {
    &&& 0 <= k < objs.len()
    &&& objs[k].index == index
    &&& forall|j: int| 0 <= j < k ==> (#[trigger] objs[j]).index != index
}

/// Records an object reported by the audio server: it replaces the known
/// object with the same index; otherwise it is added, unless it is a null
/// sink or source (its name contains `auto_null`). Returns whether it was
/// added, in which case a notification about it is due.
pub fn add_object(objects: &mut Vec<InOut>, obj: InOut) -> (added: bool)
    ensures
        (exists|k: int| first_with_index(old(objects)@, obj.index, k) && final(objects)@ == old(objects)@.update(k, obj))
            && !added
        || (forall|k: int| 0 <= k < old(objects)@.len() ==> (#[trigger] old(objects)@[k]).index != obj.index) && (
            if contains_seq(obj.name@, "auto_null"@) {
                final(objects)@ == old(objects)@ && !added
            } else {
                final(objects)@ == old(objects)@.push(obj) && added
            }),
{
    let mut i: usize = 0;
    while i < objects.len()
        invariant
            i <= objects@.len(),
            objects@ == old(objects)@,
            forall|j: int| 0 <= j < i ==> (#[trigger] objects@[j]).index != obj.index,
        decreases objects@.len() - i,
    {
        if objects[i].index == obj.index {
            assert(first_with_index(old(objects)@, obj.index, i as int));
            objects.set(i, obj);
            return false;
        }
        i = i + 1;
    }
    if str_contains(obj.name.as_str(), "auto_null") {
        return false;
    }
    objects.push(obj);
    true
}

/// Handles an object removed by the audio server: only the objects whose
/// index is `idx` are kept.
pub fn remove_object(objects: &mut Vec<InOut>, idx: u32)
    ensures
        final(objects)@ == old(objects)@.filter(|o: InOut| o.index == idx),
{
    let ghost orig = old(objects)@;
    let total = objects.len();
    let mut rest: Vec<InOut> = Vec::new();
    std::mem::swap(objects, &mut rest);
    let ghost keep = |o: InOut| o.index == idx;
    let mut k: usize = 0;
    assert(orig.take(0) =~= Seq::<InOut>::empty());
    assert(orig.skip(0) =~= orig);
    while rest.len() > 0
        invariant
            k <= orig.len(),
            orig.len() == total,
            keep == (|o: InOut| o.index == idx),
            objects@ == orig.take(k as int).filter(keep),
            rest@ == orig.skip(k as int),
        decreases rest@.len(),
    {
        let o = rest.remove(0);
        proof {
            assert(orig.take(k + 1).drop_last() =~= orig.take(k as int));
            assert(orig.take(k + 1).last() == o);
            assert(orig.skip(k + 1) =~= orig.skip(k as int).drop_first());
        }
        let ghost before = objects@;
        if o.index == idx {
            objects.push(o);
        }
        proof {
            let t = orig.take(k + 1);
            assert(t.filter(keep) == if keep(t.last()) { t.drop_last().filter(keep).push(t.last()) } else { t.drop_last().filter(keep) }) by {
                reveal(Seq::filter);
            }
            assert(t.last() == o);
            assert(t.drop_last() == orig.take(k as int));
            assert(before == orig.take(k as int).filter(keep));
            assert(keep(o) == (o.index == idx));
            if o.index == idx {
                assert(objects@ == before.push(o));
            } else {
                assert(objects@ == before);
            }
            assert(objects@ == t.filter(keep));
        }
        k = k + 1;
    }
    assert(orig.take(k as int) =~= orig);
}

/// The text of the audio item: the default output, then the default input.
pub open spec fn pulse_item_text(sink: InOut, source: InOut, theme: Theme) -> Seq<char> {
    inout_text(sink, Object::Sink, theme) + " "@ + inout_text(source, Object::Source, theme)
}

/// The block of the audio item: both default objects, or only the output
/// when space is short.
pub fn pulse_item(sink: &InOut, source: &InOut, theme: &Theme) -> (item: I3Item)
    requires
        max_volume(sink.volume@) * 100 + VOLUME_NORMAL / 2 <= u32::MAX,
        max_volume(source.volume@) * 100 + VOLUME_NORMAL / 2 <= u32::MAX,
    ensures
        item.full_text@ == pulse_item_text(*sink, *source, *theme),
        item.short_text matches Some(t) && t@ == inout_text(*sink, Object::Sink, *theme),
        item.markup == Some(I3Markup::Pango),
{
    let sink_text = sink.format(Object::Sink, theme);
    let source_text = source.format(Object::Source, theme);
    let mut text = sink_text.clone();
    text.append(" ");
    text.append(source_text.as_str());
    I3Item::new(text.as_str()).short_text(sink_text.as_str()).markup(I3Markup::Pango)
}

/// The configuration of the audio item.
#[derive(Debug, Clone)]
pub struct Pulse {
    /// How much to increment when increasing/decreasing the volume; measured in percent
    pub increment: u32,
    /// Path to a `.wav` file to play each time the sound is changed
    pub increment_sound: Option<String>,
    /// The maximum allowed volume; measured in percent
    pub max_volume: Option<u32>,
    /// Whether to send notifications on server state changes
    pub notify: NotificationSetting,
    /// Name of the audio server to try to connect to
    pub server_name: Option<String>,
}

impl Pulse {
    /// The volume step used when none is configured: 5%.
    pub fn default_increment() -> (r: u32)
        ensures
            r == 5,
    {
        5
    }
}

/// The position visited at step `j` (counting from zero) when cycling through
/// `n` items from `start` in direction `dir`; the item at `start` itself is
/// visited last in each round.
pub open spec fn cycle_pos(dir: Dir, start: int, n: int, j: int) -> int {
    match dir {
        Dir::Next => (start + 1 + j) % n,
        Dir::Prev => (start - 1 - j) % n,
    }
}

impl Dir {
    /// Walks `items` cyclically in this direction, beginning just after (or
    /// before) `start`, for two full rounds, and returns the first item that
    /// `f` accepts.
    ///
    /// Returns `None` if
    /// * `items` was empty
    /// * `f` excludes all items
    pub fn cycle<'b, T, F>(&self, start: usize, items: &'b [T], f: F) -> (r: Option<&'b T>)
        where
            F: Fn(&&T) -> bool,
        requires
            items@.len() * 2 <= usize::MAX,
            *self == Dir::Next ==> start < usize::MAX,
            *self == Dir::Prev ==> start <= items@.len(),
            forall|x: &&T| #[trigger] f.requires((x,)),
        ensures
            items@.len() == 0 ==> r is None,
            r is None ==> forall|j: int| 0 <= j < 2 * items@.len() ==>
                #[trigger] f.ensures((&&items@[cycle_pos(*self, start as int, items@.len() as int, j)],), false),
            r matches Some(x) ==> exists|j: int| #![trigger cycle_pos(*self, start as int, items@.len() as int, j)] 0 <= j < 2 * items@.len() && {
                let p = cycle_pos(*self, start as int, items@.len() as int, j);
                &&& *x == items@[p]
                &&& f.ensures((&&items@[p],), true)
                &&& forall|k: int| 0 <= k < j ==>
                    #[trigger] f.ensures((&&items@[cycle_pos(*self, start as int, items@.len() as int, k)],), false)
            },
    {
        let n = items.len();
        if n == 0 {
            return None;
        }
        let limit = n * 2;
        // first position visited, reduced modulo `n`
        let r0 = start % n;
        let first: usize = match self {
            Dir::Next => if r0 + 1 == n { 0 } else { r0 + 1 },
            Dir::Prev => if r0 == 0 { n - 1 } else { r0 - 1 },
        };
        proof {
            lemma_mod_step_up(start as int, n as int);
            lemma_mod_step_down(start as int, n as int);
        }
        let mut pos = first;
        let mut j: usize = 0;
        while j < limit
            invariant
                n == items@.len(),
                n > 0,
                limit == 2 * n,
                j <= limit,
                pos < n,
                pos as int == cycle_pos(*self, start as int, n as int, j as int),
                forall|x: &&T| #[trigger] f.requires((x,)),
                forall|k: int| 0 <= k < j ==>
                    #[trigger] f.ensures((&&items@[cycle_pos(*self, start as int, n as int, k)],), false),
            decreases limit - j,
        {
            let item = &items[pos];
            if f(&item) {
                assert(cycle_pos(*self, start as int, n as int, j as int) == pos as int);
                return Some(item);
            }
            let next_pos: usize = match self {
                Dir::Next => if pos + 1 == n { 0 } else { pos + 1 },
                Dir::Prev => if pos == 0 { n - 1 } else { pos - 1 },
            };
            proof {
                let a = match *self {
                    Dir::Next => start + 1 + j,
                    Dir::Prev => start - 1 - j,
                };
                lemma_mod_step_up(a, n as int);
                lemma_mod_step_down(a, n as int);
            }
            pos = next_pos;
            j = j + 1;
        }
        None
    }
}

} // verus!
