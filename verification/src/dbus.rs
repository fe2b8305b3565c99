//! What the bar asks of dbus: the desktop notifications it sends, and the
//! messages items want to watch.

use vstd::prelude::*;

use crate::text::{decimal, signed_decimal, i64_to_decimal, u64_to_decimal};

verus! {

/// Which bus to connect to.
#[derive(Debug, Clone, Copy, PartialEq, Eq, Structural)]
pub enum BusType {
    Session,
    System,
}

/// An item's wish to receive the dbus messages that match a rule.
#[derive(Debug, Clone)]
pub struct DbusInterest {
    pub bus: BusType,
    /// The match rule, in dbus's text form.
    pub rule: String,
    pub item_idx: usize,
}

impl DbusInterest {
    pub fn new(item_idx: usize, bus: BusType, rule: String) -> (r: DbusInterest)
        ensures
            r.item_idx == item_idx,
            r.bus == bus,
            r.rule == rule,
    {
        DbusInterest { bus, rule, item_idx }
    }
}

/// The match rules of all interests, in order (what the bar asks to monitor).
pub fn match_rules(interests: &Vec<DbusInterest>) -> (r: Vec<String>)
    ensures
        r@.len() == interests@.len(),
        forall|i: int| 0 <= i < r@.len() ==> #[trigger] r@[i] == interests@[i].rule,
{
    let mut r: Vec<String> = Vec::new();
    let mut i: usize = 0;
    while i < interests.len()
        invariant
            i <= interests@.len(),
            r@.len() == i,
            forall|k: int| 0 <= k < i ==> #[trigger] r@[k] == interests@[k].rule,
        decreases interests@.len() - i,
    {
        r.push(interests[i].rule.clone());
        i = i + 1;
    }
    r
}

/// The urgency of a notification.
#[derive(Debug, Clone, Copy, PartialEq, Eq, Structural)]
pub enum Urgency {
    Low,
    Normal,
    Critical,
}

impl Urgency {
    /// The urgency's byte in the notification protocol.
    pub fn code(&self) -> (r: u8)
        ensures
            r == match *self {
                Urgency::Low => 0u8,
                Urgency::Normal => 1u8,
                Urgency::Critical => 2u8,
            },
    {
        match self {
            Urgency::Low => 0,
            Urgency::Normal => 1,
            Urgency::Critical => 2,
        }
    }
}

/// An address of a network interface and the length of its prefix, as
/// NetworkManager reports it.
#[derive(Debug, Clone)]
pub struct AddressData {
    pub address: String,
    pub prefix: u32,
}

/// A desktop notification to send.
#[derive(Debug, Clone)]
pub struct Notification {
    /// Notifications with the same stack tag replace each other.
    pub stack_tag: Option<String>,
    /// The `value` hint (a progress value), if any.
    pub value: Option<i32>,
    /// The `urgency` hint, if any.
    pub urgency: Option<Urgency>,
    pub summary: String,
    pub body: String,
    /// Milliseconds until it expires; `0` is never.
    pub timeout: i32,
}

/// The name under which the bar sends notifications.
pub open spec fn app_name_text() -> Seq<char> {
    "i3stat"@
}

/// The name under which the bar sends notifications.
pub fn app_name() -> (r: &'static str)
    ensures
        r@ == app_name_text(),
{
    "i3stat"
}

/// `n` has exactly these parts.
pub open spec fn is_notification(
    n: Notification,
    tag: Option<Seq<char>>,
    value: Option<i32>,
    urgency: Option<Urgency>,
    summary: Seq<char>,
    body: Seq<char>,
    timeout: i32,
) -> bool {
    &&& match tag {
        Some(t) => n.stack_tag matches Some(s) && s@ == t,
        None => n.stack_tag is None,
    }
    &&& n.value == value
    &&& n.urgency == urgency
    &&& n.summary@ == summary
    &&& n.body@ == body
    &&& n.timeout == timeout
}

/// The volume (and mute state) of an audio device changed.
pub fn pulse_volume_mute(name: &str, pct: i32, mute: bool) -> (r: Notification)
    ensures
        is_notification(r, Some("pulse_volume_mute"@), Some(pct), Some(Urgency::Low), name@,
            seq![if mute { '\u{f026}' } else { '\u{f028}' }, ' '] + signed_decimal(pct as int) + "%"@, 2000),
{
    let mut body = String::new();
    body.push(if mute { '\u{f026}' } else { '\u{f028}' });
    body.push(' ');
    let p = i64_to_decimal(pct as i64);
    body.append(p.as_str());
    body.append("%");
    assert(body@ =~= seq![if mute { '\u{f026}' } else { '\u{f028}' }, ' '] + signed_decimal(pct as int) + "%"@);
    Notification {
        stack_tag: Some(String::from_str("pulse_volume_mute")),
        value: Some(pct),
        urgency: Some(Urgency::Low),
        summary: String::from_str(name),
        body,
        timeout: 2000,
    }
}

/// A new audio device appeared.
pub fn pulse_new_source_sink(name: &str, what: &str) -> (r: Notification)
    ensures
        is_notification(r, None, None, Some(Urgency::Low), "New "@ + what@ + " added"@, name@, 2000),
{
    let mut summary = String::from_str("New ");
    summary.append(what);
    summary.append(" added");
    Notification {
        stack_tag: None,
        value: None,
        urgency: Some(Urgency::Low),
        summary,
        body: String::from_str(name),
        timeout: 2000,
    }
}

/// The default audio device changed.
pub fn pulse_defaults_change(name: &str, what: &str) -> (r: Notification)
    ensures
        is_notification(r, Some("pulse_defaults_change"@), None, Some(Urgency::Low), "Default "@ + what@, name@,
            2000),
{
    let mut summary = String::from_str("Default ");
    summary.append(what);
    Notification {
        stack_tag: Some(String::from_str("pulse_defaults_change")),
        value: None,
        urgency: Some(Urgency::Low),
        summary,
        body: String::from_str(name),
        timeout: 2000,
    }
}

/// The AC adapter was plugged in or out.
pub fn ac_adapter(plugged_in: bool) -> (r: Notification)
    ensures
        is_notification(r, None, None, Some(Urgency::Low), "AC Adapter"@,
            if plugged_in { "Connected"@ } else { "Disconnected"@ }, 2000),
{
    Notification {
        stack_tag: None,
        value: None,
        urgency: Some(Urgency::Low),
        summary: String::from_str("AC Adapter"),
        body: String::from_str(if plugged_in { "Connected" } else { "Disconnected" }),
        timeout: 2000,
    }
}

/// The battery is critically low; the notification stays until it is
/// replaced.
pub fn battery_critical(pct: u8) -> (r: Notification)
    ensures
        is_notification(r, Some("battery_critical"@), None, Some(Urgency::Critical), "Critical Battery Warning!"@,
            "Remaining: "@ + decimal(pct as nat) + "%"@, 0),
{
    let mut body = String::from_str("Remaining: ");
    let p = u64_to_decimal(pct as u64);
    body.append(p.as_str());
    body.append("%");
    Notification {
        stack_tag: Some(String::from_str("battery_critical")),
        value: None,
        urgency: Some(Urgency::Critical),
        summary: String::from_str("Critical Battery Warning!"),
        body,
        timeout: 0,
    }
}

/// Replaces the critical battery notification with one that expires at once.
pub fn battery_critical_off() -> (r: Notification)
    ensures
        is_notification(r, Some("battery_critical"@), None, None, Seq::empty(), Seq::empty(), 1),
{
    Notification {
        stack_tag: Some(String::from_str("battery_critical")),
        value: None,
        urgency: None,
        summary: String::new(),
        body: String::new(),
        timeout: 1,
    }
}

} // verus!
