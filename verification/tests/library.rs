use std::io::Cursor;
use std::time::Duration;

use i3stat::audio::{wav_sample, SampleFormat, SampleSpec};

use i3stat::bar::Bar;
use i3stat::bar_items::battery::{Bat, BatReading, BatState, Battery};
use i3stat::bar_items::disk::{Disk, DiskAlias, DiskStats};
use i3stat::bar_items::kbd::{Kbd, Keys};
use i3stat::bar_items::light::{Light, LightAction, LightCommand, LightFile};
use i3stat::bar_items::net_usage::{format_bytes, NetUsage, UsageDisplay};
use i3stat::bar_items::nic::{filtered, AddrKind, Nic, Connection, ConnectionDetail, Connections, InterfaceFilter, NetInterface, SignalStrength, WirelessDisplay};
use i3stat::bar_items::Paginator;
use i3stat::bar_items::notify::{Dunst, Krb, Mako, Time};
use i3stat::bar_items::script::{join_modifiers, Script, ScriptEnv, ScriptEvent, ScriptFormat};
use i3stat::bar_items::sensors::Sensors;
use i3stat::bar_items::tuxedo::{active_position, profiles_from, Tuxedo};
use i3stat::bar_items::usage::{Cpu, Mem, MemDisplay};
use i3stat::cell::RcCell;
use i3stat::color::HexColor;
use i3stat::context::StopAction;
use i3stat::config::{Action, ActionWrapper, Actions, AppConfig, Common, Item, ItemInner, OrderEntry};
use i3stat::dbus::{ac_adapter, battery_critical, match_rules, pulse_volume_mute, BusType, DbusInterest, Urgency};
use i3stat::dispatcher::{Dispatcher, SendFailure};
use i3stat::format::FloatFormat;
use i3stat::i3::ipc::{click_line_body, handle_actions, route_click, trim_str, ClickRoute};
use i3stat::i3::{I3Align, I3MinWidth, ItemData};
use i3stat::i3::{I3Button, I3ClickEvent, I3Item, I3Markup, I3Modifier};
use i3stat::ipc::{bar_event_reply, resolve_instance, CustomResponse, IpcReply, IpcResult};
use i3stat::ipc_cli::{button_cli_name, classify_theme_value, cli_buttons, cli_modifiers, click_for, modifier_cli_name, read_theme_value, ClickPosition, ThemeValue};
use i3stat::pulse::{custom_action, NotificationSetting, Bool, CustomPulseAction, Object, PulseCommand, Vol};
use i3stat::text::{i64_to_decimal, left_pad, parse_usize, IntErrorKind};
use i3stat::theme::Theme;

fn theme() -> Theme {
    Theme::default()
}

// --- text -----------------------------------------------------------------

#[test]
fn parse_usize_reads_numbers() {
    assert_eq!(parse_usize("0"), Ok(0));
    assert_eq!(parse_usize("42"), Ok(42));
    assert_eq!(parse_usize("+7"), Ok(7));
    assert_eq!(parse_usize(""), Err(IntErrorKind::Empty));
    assert_eq!(parse_usize("+"), Err(IntErrorKind::InvalidDigit));
    assert_eq!(parse_usize("-1"), Err(IntErrorKind::InvalidDigit));
    assert_eq!(parse_usize("1a"), Err(IntErrorKind::InvalidDigit));
    assert_eq!(parse_usize("99999999999999999999999"), Err(IntErrorKind::PosOverflow));
    // the same answers as std
    for s in ["0", "42", "+7", "", "+", "-1", "1a", "99999999999999999999999", " 1"] {
        assert_eq!(parse_usize(s).ok(), s.parse::<usize>().ok(), "{:?}", s);
    }
}

#[test]
fn parse_error_messages_match_std() {
    assert_eq!(IntErrorKind::Empty.message(), "".parse::<usize>().unwrap_err().to_string());
    assert_eq!(IntErrorKind::InvalidDigit.message(), "x".parse::<usize>().unwrap_err().to_string());
    assert_eq!(
        IntErrorKind::PosOverflow.message(),
        "99999999999999999999999".parse::<usize>().unwrap_err().to_string()
    );
}

#[test]
fn decimal_roundtrip_law() {
    for n in [0usize, 1, 9, 10, 99, 12345, usize::MAX] {
        assert_eq!(parse_usize(&n.to_string()), Ok(n));
    }
}

#[test]
fn padding_and_signed_numbers() {
    assert_eq!(left_pad("ab", 5), "   ab");
    assert_eq!(left_pad("abcdef", 3), "abcdef");
    assert_eq!(i64_to_decimal(-42), "-42");
    assert_eq!(i64_to_decimal(i64::MIN), i64::MIN.to_string());
    assert_eq!(trim_str("  \t hi there \n"), "hi there");
}

// --- colours ----------------------------------------------------------------

#[test]
fn color_display_is_upper_hex() {
    assert_eq!(HexColor::rgb(0xab, 0x01, 0xff).display_rgb(), "#AB01FF");
    assert_eq!(theme().red.display_rgb(), "#CC6666");
}

// --- config -----------------------------------------------------------------

fn names(items: &[Item]) -> Vec<String> {
    items.iter().map(|i| i.name()).collect()
}

fn named(name: &str) -> Item {
    Item::new(Common { name: Some(name.into()), ..Default::default() }, ItemInner::Raw)
}

#[test]
fn item_names_default_to_tags() {
    let it = Item::new(Common::default(), ItemInner::NetUsage);
    assert_eq!(it.name(), "net_usage");
    assert_eq!(named("foo").name(), "foo");
}

#[test]
fn idx_to_name_lists_places() {
    let cfg = AppConfig {
        includes: vec![],
        theme: theme(),
        items: vec![named("a"), Item::new(Common::default(), ItemInner::Cpu)],
        socket: Some("/tmp/sock".into()),
    };
    assert_eq!(cfg.item_idx_to_name(), vec![(0, "a".to_string()), (1, "cpu".to_string())]);
    assert_eq!(cfg.socket(), "/tmp/sock");
}

#[test]
fn validate_sorts_then_checks() {
    let mut cfg = AppConfig {
        includes: vec![],
        theme: theme(),
        items: vec![named("a"), Item::new(Common { name: Some("b".into()), index: Some(0), ..Default::default() }, ItemInner::Raw)],
        socket: None,
    };
    assert_eq!(cfg.validate(), Ok(()));
    assert_eq!(cfg.items[0].name(), "b");

    let mut bad_theme = theme();
    bad_theme.powerline.truncate(1);
    let mut cfg = AppConfig { includes: vec![], theme: bad_theme, items: vec![], socket: None };
    assert_eq!(cfg.validate(), Err("theme.powerline must contain at least two values".to_string()));

    let mut cfg = AppConfig { includes: vec![], theme: theme(), items: vec![named("x"), named("x")], socket: None };
    assert_eq!(
        cfg.validate(),
        Err("item names must be unique, item[1] and item[0] share the same name: x".to_string())
    );
}

// --- ipc --------------------------------------------------------------------

#[test]
fn ipc_frame_roundtrip() {
    let body = vec![7u8; 300];
    let frame = encode_ipc_msg_owned(&body);
    assert_eq!(frame.len(), 308);
    assert_eq!(i3stat::ipc::decode_ipc_header(&frame[..8]), 300);
    assert_eq!(&frame[8..], &body[..]);
}

fn encode_ipc_msg_owned(b: &[u8]) -> Vec<u8> {
    i3stat::ipc::encode_ipc_msg(b)
}

#[test]
fn instances_resolve_by_index_or_name() {
    let names = vec![(0, "cpu".to_string()), (1, "disk".to_string()), (2, "disk".to_string())];
    assert_eq!(resolve_instance("2", &names), Ok(2));
    assert_eq!(resolve_instance("17", &names), Ok(17));
    assert_eq!(resolve_instance("disk", &names), Ok(1));
    assert_eq!(
        resolve_instance("nope", &names),
        Err("failed to parse ipc instance property: invalid digit found in string".to_string())
    );
    assert_eq!(
        resolve_instance("", &names),
        Err("failed to parse ipc instance property: cannot parse integer from empty string".to_string())
    );
}

#[test]
fn bar_event_replies() {
    assert_eq!(bar_event_reply(Ok(()), None), IpcReply::Result(IpcResult::Success(None)));
    assert_eq!(
        bar_event_reply(Err("no item found with index: 9".into()), None),
        IpcReply::Result(IpcResult::Failure("no item found with index: 9".into()))
    );
    assert_eq!(
        bar_event_reply(Ok(()), Some(None)),
        IpcReply::Result(IpcResult::Failure("bar item not listening for response".into()))
    );
    assert_eq!(bar_event_reply(Ok(()), Some(Some(CustomResponse::Help("h".into())))), IpcReply::Help("h".into()));
    assert_eq!(bar_event_reply(Ok(()), Some(Some(CustomResponse::Json("1".into())))), IpcReply::Value("1".into()));
}

// --- clicks -----------------------------------------------------------------

#[test]
fn click_lines() {
    assert_eq!(click_line_body("["), None);
    assert_eq!(click_line_body("  [ "), None);
    assert_eq!(click_line_body(",{\"a\":1}"), Some("{\"a\":1}".to_string()));
    assert_eq!(click_line_body(" , {}"), Some("{}".to_string()));
    assert_eq!(click_line_body("[1]"), Some("[1]".to_string()));
}

fn click(instance: Option<&str>, button: I3Button, modifiers: Vec<I3Modifier>) -> I3ClickEvent {
    I3ClickEvent { instance: instance.map(|s| s.into()), button, modifiers, ..Default::default() }
}

#[test]
fn click_routing() {
    let actions = Actions {
        left_click: Some(ActionWrapper::Many(vec![
            Action::Simple("a".into()),
            Action::WithOptions { command: "b".into(), modifiers: vec![I3Modifier::Shift] },
        ])),
        middle_click: None,
        right_click: Some(ActionWrapper::Single(Action::WithOptions {
            command: "c".into(),
            modifiers: vec![I3Modifier::Control],
        })),
    };
    let items = vec![
        named("x"),
        Item::new(Common { actions: Some(actions), ..Default::default() }, ItemInner::Raw),
    ];

    assert!(matches!(route_click(&click(None, I3Button::Left, vec![]), &items), ClickRoute::Ignore));
    assert!(matches!(route_click(&click(Some("x"), I3Button::Left, vec![]), &items), ClickRoute::Ignore));
    assert!(matches!(route_click(&click(Some("0"), I3Button::Left, vec![]), &items), ClickRoute::Forward(0)));
    match route_click(&click(Some("1"), I3Button::Left, vec![]), &items) {
        ClickRoute::RunActions(1, cmds) => assert_eq!(cmds, vec!["a".to_string()]),
        other => panic!("{:?}", other),
    }
    match route_click(&click(Some("1"), I3Button::Left, vec![I3Modifier::Shift, I3Modifier::Shift]), &items) {
        ClickRoute::RunActions(1, cmds) => assert_eq!(cmds, vec!["a".to_string(), "b".to_string()]),
        other => panic!("{:?}", other),
    }
    assert!(matches!(route_click(&click(Some("1"), I3Button::Right, vec![]), &items), ClickRoute::Forward(1)));
    assert!(matches!(route_click(&click(Some("1"), I3Button::Middle, vec![]), &items), ClickRoute::Forward(1)));
    assert_eq!(handle_actions(None, &click(None, I3Button::Left, vec![])).len(), 0);
}

// --- dispatcher ---------------------------------------------------------------

#[test]
fn dispatcher_routes() {
    let mut d: Dispatcher<u8, ()> = Dispatcher::new((), 3);
    assert_eq!(d.sender(1), Err("no item found with index: 1".to_string()));
    d.set(1, 42);
    assert_eq!(d.sender(1), Ok(&42));
    assert_eq!(d.sender(5), Err("no item found with index: 5".to_string()));
    d.set(2, 7);
    assert_eq!(d.active_indices(), vec![1, 2]);
    d.remove(1);
    assert_eq!(d.active_indices(), vec![2]);
    assert_eq!(
        SendFailure::ChannelFull.message(2),
        "failed to send event to item[2]: dropping event (channel is full)"
    );
    assert_eq!(
        SendFailure::ReceiverDropped.message(0),
        "failed to send event to item[0]: dropping event (receiver dropped)"
    );
}

#[test]
fn rc_cell_holds_its_value() {
    let mut c = RcCell::new(3);
    assert_eq!(*c.get(), 3);
    c.set(4);
    assert_eq!(*c, 4);
    assert_eq!(c.into_inner(), 4);
}

// --- items --------------------------------------------------------------------

#[test]
fn battery_states() {
    assert_eq!(BatState::from_str("Not charging"), Ok(BatState::NotCharging));
    assert_eq!(BatState::from_str("Full"), Ok(BatState::Full));
    assert_eq!(BatState::from_str("weird"), Err("Unknown battery state: weird".to_string()));
    let t = theme();
    assert_eq!(BatState::Full.get_color(&t), (None, Some(t.purple)));
    assert_eq!(BatState::Charging.get_color(&t), (Some("\u{f06a5}".to_string()), Some(t.blue)));
    assert_eq!(BatState::Discharging.get_color(&t), (None, None));
}

#[test]
fn battery_blocks() {
    let t = theme();
    let bat0 = Bat { path: "/sys/class/power_supply/BAT0".into() };
    let bat1 = Bat { path: "/sys/class/power_supply/BAT1".into() };
    assert_eq!(bat1.name(), Ok("BAT1".to_string()));
    assert_eq!(Bat { path: "/".into() }.name(), Err("failed to parse file name from: /".to_string()));

    let unread = bat0.format(&t, None, None).unwrap();
    assert_eq!(unread.full_text, "???");
    assert_eq!(unread.color, Some(t.red));

    let low = BatReading { charge_pct: 10, charge_shown: 10, state: BatState::Discharging };
    let it = bat0.format(&t, Some(low), None).unwrap();
    assert_eq!(it.full_text, "\u{f244}  10%");
    assert_eq!(it.short_text.as_deref(), Some("10%"));
    assert_eq!(it.urgent, Some(true));
    assert_eq!(it.color, None);

    let charging = BatReading { charge_pct: 60, charge_shown: 61, state: BatState::Charging };
    let it = bat1.format(&t, Some(charging), None).unwrap();
    assert_eq!(it.full_text, "BAT1  61%");
    assert_eq!(it.color, Some(t.blue));
    assert_eq!(it.urgent, None);

    let full = BatReading { charge_pct: 100, charge_shown: 100, state: BatState::Full };
    let it = bat0.format(&t, Some(full), Some(("12.34 W", "12"))).unwrap();
    assert_eq!(it.full_text, "12.34 W");
    assert_eq!(it.short_text.as_deref(), Some("12"));
    assert_eq!(it.color, Some(t.purple));

    let mid = BatReading { charge_pct: 55, charge_shown: 55, state: BatState::Discharging };
    let it = bat0.format(&t, Some(mid), None).unwrap();
    assert_eq!(it.full_text, "\u{f241}  55%");
    assert_eq!(it.color, None);
}

#[test]
fn cpu_and_memory() {
    let t = theme();
    let cpu = Cpu { float_fmt: FloatFormat::default() };
    assert_eq!(cpu.get_color(&t, 39), None);
    assert_eq!(cpu.get_color(&t, 40), Some(t.yellow));
    assert_eq!(cpu.get_color(&t, 79), Some(t.orange));
    assert_eq!(cpu.get_color(&t, 100), Some(t.red));
    assert_eq!(cpu.get_color(&t, 101), None);
    let it = cpu.item(&t, 85, "85.0");
    assert_eq!(it.full_text, "\u{f4bc} 85.0%");
    assert_eq!(it.markup, Some(I3Markup::Pango));
    assert_eq!(it.color, Some(t.red));

    let it = Mem::item(&t, MemDisplay::Bytes, 999, 10, "10");
    assert_eq!(it.full_text, "\u{f2db} 999 B");
    assert_eq!(it.color, None);
    let it = Mem::item(&t, MemDisplay::Bytes, 2_000_000, 10, "10");
    assert_eq!(it.full_text, format!("\u{f2db} {}", bytesize::ByteSize(2_000_000).to_string_as(false)));
    let it = Mem::item(&t, MemDisplay::Percentage, 0, 65, "65.5");
    assert_eq!(it.full_text, "\u{f2db} 65.5%");
    assert_eq!(it.color, Some(t.orange));
    assert_eq!(MemDisplay::Bytes.next(), MemDisplay::Percentage);
    assert_eq!(MemDisplay::Percentage.next(), MemDisplay::Bytes);
}

#[test]
fn disks() {
    let t = theme();
    let d = DiskStats::new("/home".into(), 500, 1000, None);
    assert_eq!(d.format(&t), ("\u{f02ca} /home 500 B".to_string(), "/home".to_string()));
    let aliased = DiskStats::new("/".into(), 1 << 30, 1 << 31, Some("root".into()));
    assert_eq!(aliased.format(&t).0, "\u{f02ca} root 1.0 GiB");
    assert_eq!(d.get_color(&t, 10), Some(t.red));
    assert_eq!(d.get_color(&t, 20), Some(t.orange));
    assert_eq!(d.get_color(&t, 30), Some(t.yellow));
    assert_eq!(d.get_color(&t, 31), None);
    let it = d.item(&t, 50, "");
    assert_eq!(it.full_text, "\u{f02ca} /home 500 B");
    assert_eq!(it.short_text.as_deref(), Some("/home"));
    assert_eq!(it.additional_data.last().map(|(k, _)| k.as_str()), Some("_mount_point"));
}

#[test]
fn sensors() {
    let t = theme();
    assert_eq!(Sensors::get_icon(&t, 59), ('\u{f2cb}', None));
    assert_eq!(Sensors::get_icon(&t, 65), ('\u{f2ca}', Some(t.yellow)));
    assert_eq!(Sensors::get_icon(&t, 75), ('\u{f2c9}', Some(t.yellow)));
    assert_eq!(Sensors::get_icon(&t, 85), ('\u{f2c8}', Some(t.orange)));
    assert_eq!(Sensors::get_icon(&t, 95), ('\u{f2c7}', Some(t.red)));
    let s = Sensors { label: Some(" (cpu)".into()), component: "k10temp".into() };
    let it = s.item(&t, 91, "91");
    assert_eq!(it.full_text, "\u{f2c7} 91\u{b0}C (cpu)");
    assert_eq!(it.short_text.as_deref(), Some("91C"));
    assert_eq!(s.missing_error(), "no component found with name: k10temp");
}

#[test]
fn notification_items() {
    let t = theme();
    let on = Dunst::item(&t, true);
    assert_eq!(on.full_text, " \u{f1f6}  ");
    assert_eq!(on.background_color, Some(t.yellow));
    assert_eq!(Mako::item(&t, false).full_text, "");
    assert!(Mako::contains_dnd_mode("default\ndo-not-disturb\n"));
    assert!(Mako::contains_dnd_mode("  do-not-disturb  "));
    assert!(Mako::contains_dnd_mode("a\r\ndo-not-disturb\r\nb"));
    assert!(!Mako::contains_dnd_mode("default"));
    assert!(!Mako::contains_dnd_mode("do-not-disturbed"));
    assert!(!Mako::contains_dnd_mode("xdo-not-disturb"));
    assert_eq!(Krb::item(&t, false).color, Some(t.dim));
    let it = Time::item("Mon 12:00", "12:00");
    assert_eq!(it.full_text, "\u{f0954} Mon 12:00");
    assert_eq!(it.short_text.as_deref(), Some("12:00"));
}

#[test]
fn keyboard_locks() {
    let t = theme();
    assert_eq!(Keys::CapsLock.sys_dir_suffix(), "::capslock");
    assert_eq!(Keys::ScrollLock.symbol(), "S");
    assert!(Keys::NumLock.is_led_dir("input3::numlock"));
    assert!(!Keys::NumLock.is_led_dir("input3::capslock"));
    assert_eq!(
        Keys::CapsLock.format(&t, true),
        format!("<span foreground=\"{}\">C</span>", t.fg.display_rgb())
    );
    assert_eq!(Keys::NumLock.missing_led_error(), "failed to find led file for: \"num_lock\"");
    let kbd = Kbd { show: None };
    assert_eq!(kbd.keys(), vec![Keys::CapsLock, Keys::NumLock, Keys::ScrollLock]);
    let text = Kbd::text(&t, &vec![Keys::CapsLock, Keys::NumLock], &vec![true, false]);
    assert_eq!(
        text,
        format!(
            "<span foreground=\"{}\">C</span><span foreground=\"{}\">N</span>",
            t.fg.display_rgb(),
            t.dim.display_rgb()
        )
    );
}

#[test]
fn lights() {
    let l = LightFile { max_brightness: 255, brightness_file: "/x".into() };
    assert_eq!(l.percent(255), 100);
    assert_eq!(l.percent(128), 50);
    assert_eq!(l.value_for(50), 128);
    assert_eq!(l.value_for(200), 255);
    assert_eq!(l.value_for(100), 255);
    // a percentage that is set is read back
    for pct in 0..=100u8 {
        assert_eq!(l.percent(l.value_for(pct)), pct);
    }
    let exact = LightFile { max_brightness: 100, brightness_file: "/x".into() };
    assert_eq!(exact.value_for(37), 37);
    assert_eq!(LightFile::adjust(50, 5), 55);
    assert_eq!(LightFile::adjust(52, 5), 55);
    assert_eq!(LightFile::adjust(52, -5), 45);
    assert_eq!(LightFile::adjust(100, 5), 100);
    assert_eq!(LightFile::adjust(2, -5), 0);
    assert_eq!(LightFile::format(5).full_text, "\u{f00da}   5%");
    assert_eq!(LightFile::format(100).full_text, "\u{f00e0} 100%");
    assert_eq!(Light::default().click_action(I3Button::Left), Some(LightAction::SetTo(1)));
    assert_eq!(Light::default().click_action(I3Button::ScrollDown), Some(LightAction::Adjust(-5)));
    assert_eq!(Light { path: None, increment: Some(10) }.click_action(I3Button::ScrollUp), Some(LightAction::Adjust(10)));
    assert_eq!(Light::default().click_action(I3Button::Middle), None);
    // an increment above 127 reads as a negative byte
    assert_eq!(Light { path: None, increment: Some(200) }.click_action(I3Button::ScrollDown), Some(LightAction::Adjust(56)));
}

#[test]
fn network_usage() {
    let t = theme();
    let n = NetUsage {
        minimum: None,
        thresholds: vec![100, 200, 300, 400, 500],
        ignored_interfaces: vec!["lo".into()],
        display: UsageDisplay::Bytes,
        always_assume_interval: false,
    };
    assert_eq!(n.get_color(&t, 50), Some(t.dim));
    assert_eq!(n.get_color(&t, 100), Some(t.dim));
    assert_eq!(n.get_color(&t, 150), None);
    assert_eq!(n.get_color(&t, 250), Some(t.yellow));
    assert_eq!(n.get_color(&t, 350), Some(t.orange));
    assert_eq!(n.get_color(&t, 450), Some(t.red));
    assert_eq!(n.get_color(&t, 500), Some(t.purple));
    assert_eq!(format_bytes(10, false, false), "10 B");
    assert_eq!(format_bytes(10, false, true), "80 bits");
    assert_eq!(format_bytes(1000, false, true), "8.0 Kbits");
    assert_eq!(n.text(10, UsageDisplay::Bytes), "       -");
    assert_eq!(n.text(2048, UsageDisplay::Bibytes), " 2.0 kiB");
    assert_eq!(
        n.totals(&vec![("lo".into(), 5, 6), ("eth0".into(), 10, 20), ("wlan0".into(), 1, 2)]),
        (11, 22)
    );
    assert_eq!(UsageDisplay::Bibytes.next(), UsageDisplay::Bits);
    let it = n.item(&t, 0, 0, UsageDisplay::Bytes);
    assert_eq!(
        it.full_text,
        format!(
            "<span foreground=\"{0}\">       -\u{2193}</span> <span foreground=\"{0}\">       -\u{2191}</span>",
            t.dim.display_rgb()
        )
    );
}

#[test]
fn network_connections() {
    let c = Connections::new(vec![
        NetInterface { name: "lo".into(), ip_addresses: vec!["127.0.0.1".into(), "::1".into()] },
        NetInterface { name: "eth0".into(), ip_addresses: vec![] },
        NetInterface { name: "wlan0".into(), ip_addresses: vec!["10.0.0.2".into()] },
    ]);
    assert_eq!(c.len(), 3);
    assert!(!c.is_empty());
    assert_eq!(c.get_index(0), Some((0, 0)));
    assert_eq!(c.get_index(1), Some((0, 1)));
    assert_eq!(c.get_index(2), Some((2, 0)));
    assert_eq!(c.get_index(3), None);
    assert!(Connections::new(vec![]).is_empty());

    let signal = SignalStrength { dbm: -60, quality: 80 };
    let d = ConnectionDetail::SsidAndSignal("home".into(), signal);
    assert_eq!(d.display(WirelessDisplay::Percent), "80% at home");
    assert_eq!(d.display(WirelessDisplay::Dbm), "-60 dBm at home");
    assert_eq!(d.display(WirelessDisplay::Hidden), "");
    assert_eq!(ConnectionDetail::Ssid("x".into()).display(WirelessDisplay::Dbm), "x");

    let t = theme();
    let conn = Connection { name: "wlan0".into(), addr: "10.0.0.2".into(), detail: Some(d), quality: Some(50) };
    let (full, short) = conn.format(&t, WirelessDisplay::Percent);
    let fg = format!(" foreground=\"{}\"", t.orange.display_rgb());
    assert_eq!(full, format!("<span{}>wlan0(10.0.0.2) 80% at home</span>", fg));
    assert_eq!(short, format!("<span{}>wlan0</span>", fg));
}

#[test]
fn script_environment() {
    let mut env = ScriptEnv::new();
    env.update(&ScriptEvent::Signal);
    let c = I3ClickEvent {
        name: Some("s".into()),
        button: I3Button::Right,
        modifiers: vec![I3Modifier::Shift, I3Modifier::Mod4],
        x: 1,
        y: 2,
        output_x: Some(3),
        width: 9,
        ..Default::default()
    };
    env.update(&ScriptEvent::Click(c));
    let get = |k: &str| env.vars.iter().rev().find(|(key, _)| key == k).map(|(_, v)| v.clone());
    assert_eq!(get("I3_SIGNAL"), None);
    assert_eq!(get("I3_NAME").as_deref(), Some("s"));
    assert_eq!(get("I3_BUTTON").as_deref(), Some("3"));
    assert_eq!(get("I3_MODIFIERS").as_deref(), Some("\"Shift\",\"Mod4\""));
    assert_eq!(get("I3_X").as_deref(), Some("1"));
    assert_eq!(get("I3_OUTPUT_X").as_deref(), Some("3"));
    assert_eq!(get("I3_OUTPUT_Y"), None);
    assert_eq!(get("I3_WIDTH").as_deref(), Some("9"));
    assert_eq!(join_modifiers(&vec![]), "");
    assert_eq!(Script::output_text("  out\n"), "out");

    let t = theme();
    let s = Script { command: "echo".into(), output: ScriptFormat::Json, markup: I3Markup::Pango };
    let bad = s.item(&t, "{", None);
    assert_eq!(bad.full_text, "ERROR");
    assert_eq!(bad.background_color, Some(t.red));
    let good = s.item(&t, "{}", Some(I3Item::new("x")));
    assert_eq!(good.full_text, "x");
    assert_eq!(good.markup, Some(I3Markup::Pango));
    let simple = Script { output: ScriptFormat::Simple, ..s };
    assert_eq!(simple.item(&t, "hello", None).full_text, "hello");
}

#[test]
fn tuxedo_profiles() {
    let t = theme();
    let ps = profiles_from(&vec!["quiet".into(), "fast".into()], "fast");
    assert!(!ps[0].active);
    assert!(ps[1].active);
    assert_eq!(active_position(&ps), Some(1));
    let it = Tuxedo::item(&t, &ps[1], "");
    assert_eq!(it.full_text, "fast ");
    assert_eq!(it.color, Some(t.green));
}

#[test]
fn notifications() {
    let n = pulse_volume_mute("Speakers", 40, true);
    assert_eq!(n.body, "\u{f026} 40%");
    assert_eq!(n.stack_tag.as_deref(), Some("pulse_volume_mute"));
    assert_eq!(n.value, Some(40));
    assert_eq!(n.timeout, 2000);
    assert_eq!(ac_adapter(false).body, "Disconnected");
    let b = battery_critical(4);
    assert_eq!(b.body, "Remaining: 4%");
    assert_eq!(b.urgency, Some(Urgency::Critical));
    assert_eq!(b.timeout, 0);
    let i = DbusInterest::new(3, BusType::Session, "type='signal'".into());
    assert_eq!(match_rules(&vec![i]), vec!["type='signal'".to_string()]);
}

#[test]
fn pulse_commands() {
    assert!(bool::from(Bool::Enabled));
    assert!(!bool::from(Bool::Off));
    match custom_action(PulseCommand::VolumeUp { what: Object::Sink }, 5) {
        CustomPulseAction::SetVolume(Object::Sink, Vol::Incr(5), m) => assert_eq!(m, "failed to increment sink volume"),
        other => panic!("{:?}", other),
    }
    match custom_action(PulseCommand::SetDefault { what: Object::Source, name: "mic".into() }, 5) {
        CustomPulseAction::SetDefault(Object::Source, n, m) => {
            assert_eq!(n, "mic");
            assert_eq!(m, "failed to set default source to mic, is the name right?");
        },
        other => panic!("{:?}", other),
    }
    match custom_action(PulseCommand::Mute { what: Object::Sink, mute: Bool::Yes }, 5) {
        CustomPulseAction::SetMute(Object::Sink, true, m) => assert_eq!(m, "failed to set mute for sink"),
        other => panic!("{:?}", other),
    }
}

#[test]
fn bar_picks_layout() {
    let mut bar = Bar::new(2);
    bar.set(0, I3Item::new("a"));
    bar.set(1, I3Item::new("b").urgent(true));
    let mut t = theme();
    let plain = bar.get_items(&t);
    assert_eq!(plain.len(), 2);
    assert_eq!(plain[1].background_color, Some(t.urgent_bg));
    assert!(bar.any_urgent());
    t.powerline_enable = true;
    assert_eq!(bar.get_items(&t).len(), 4);
}

#[test]
fn explicit_item_order() {
    let items = vec![named("a"), named("b"), named("c")];
    let order = vec![OrderEntry::Name("c".into()), OrderEntry::Index(Some(0)), OrderEntry::Name("b".into())];
    assert_eq!(AppConfig::resolve_item_order(&order, &items), Ok(vec![2, 0, 1]));
    assert_eq!(
        AppConfig::resolve_item_order(&vec![OrderEntry::Index(Some(0))], &items),
        Err("`item_order` must have the same length as `items`; got length=1, but item count=3".to_string())
    );
    let bad = vec![OrderEntry::Name("z".into()), OrderEntry::Index(None), OrderEntry::Other];
    assert_eq!(AppConfig::resolve_item_order(&bad, &items), Err("no item found with name: z".to_string()));
    let bad = vec![OrderEntry::Index(Some(1)), OrderEntry::Index(None), OrderEntry::Other];
    assert_eq!(AppConfig::resolve_item_order(&bad, &items), Err("not a valid index".to_string()));
    let bad = vec![OrderEntry::Other, OrderEntry::Index(None), OrderEntry::Other];
    assert_eq!(
        AppConfig::resolve_item_order(&bad, &items),
        Err("only names (strings) or indices (numbers) are allowed".to_string())
    );
    let dup = vec![OrderEntry::Index(Some(0)), OrderEntry::Name("a".into()), OrderEntry::Index(Some(2))];
    assert_eq!(
        AppConfig::resolve_item_order(&dup, &items),
        Err("duplicate item defined in `item_order`; index=0 and name=a".to_string())
    );
    // with two items of one name, the name means the last of them
    let twins = vec![named("x"), named("x")];
    assert_eq!(
        AppConfig::resolve_item_order(&vec![OrderEntry::Name("x".into()), OrderEntry::Index(Some(0))], &twins),
        Ok(vec![1, 0])
    );
}

#[test]
fn explicit_item_order_applied() {
    let mut items = vec![named("a"), named("b"), named("c")];
    let order = vec![OrderEntry::Name("c".into()), OrderEntry::Index(Some(0)), OrderEntry::Name("b".into())];
    assert_eq!(AppConfig::apply_item_order(&mut items, &order), Ok(vec![2, 0, 1]));
    assert_eq!(names(&items), vec!["c", "a", "b"]);
    let cfg = AppConfig { includes: vec![], theme: theme(), items, socket: None };
    let by_place: Vec<String> = cfg.item_idx_to_name().into_iter().map(|(_, n)| n).collect();
    assert_eq!(by_place, vec!["c", "a", "b"]);

    let mut items = vec![named("a"), named("b")];
    let bad = vec![OrderEntry::Name("z".into()), OrderEntry::Index(Some(0))];
    assert_eq!(AppConfig::apply_item_order(&mut items, &bad), Err("no item found with name: z".to_string()));
    assert_eq!(names(&items), vec!["a", "b"]);
}

#[test]
fn item_order_of_is_a_permutation() {
    let order = AppConfig::item_order_of(&vec![Some(2), None, Some(0), Some(99)]);
    let mut sorted = order.clone();
    sorted.sort();
    assert_eq!(sorted, vec![0, 1, 2, 3]);
    assert_eq!(AppConfig::item_order_of(&vec![]), Vec::<usize>::new());
}

#[test]
fn pages_turn_on_clicks() {
    let t = theme();
    let mut p = Paginator::new();
    assert_eq!(p.idx(), 0);
    assert_eq!(p.format(&t), "");
    p.set_len(3);
    p.update(I3Button::Left);
    assert_eq!(p.idx(), 1);
    p.update(I3Button::ScrollUp);
    p.update(I3Button::Left);
    assert_eq!(p.idx(), 0);
    p.update(I3Button::Right);
    assert_eq!(p.idx(), 2);
    p.update(I3Button::Middle);
    assert_eq!(p.idx(), 2);
    assert_eq!(
        p.format(&t),
        format!(
            " <span line_height=\"1024\" foreground=\"{}\"><sup>3</sup>/<sub>3</sub></span>",
            t.dim.display_rgb()
        )
    );
    p.set_len(2);
    assert_eq!(p.idx(), 0);
}

#[test]
fn page_turn_undone() {
    let mut p = Paginator::new();
    p.set_len(4);
    for start in 0..4 {
        while p.idx() != start {
            p.update(I3Button::Left);
        }
        p.update(I3Button::Left);
        p.update(I3Button::Right);
        assert_eq!(p.idx(), start);
        p.update(I3Button::ScrollDown);
        p.update(I3Button::ScrollUp);
        assert_eq!(p.idx(), start);
    }
}

#[test]
fn interface_filters() {
    let f = InterfaceFilter::parse("vpn0:ipv4").unwrap();
    assert_eq!(f.name, "vpn0");
    assert_eq!(f.kind, Some(AddrKind::Ipv4));
    let all6 = InterfaceFilter::parse(":ipv6").unwrap();
    assert_eq!(all6.name, "");
    assert_eq!(all6.kind, Some(AddrKind::Ipv6));
    let plain = InterfaceFilter::parse("eth0").unwrap();
    assert_eq!(plain.kind, None);
    assert!(InterfaceFilter::parse("eth0:ipx").is_none());

    assert!(f.matches("vpn0", "10.8.0.1"));
    assert!(!f.matches("vpn0", "fe80::1"));
    assert!(!f.matches("eth0", "10.0.0.1"));
    assert!(all6.matches("eth0", "fe80::1"));
    assert!(!all6.matches("eth0", "10.0.0.1"));

    let ints = vec![
        NetInterface { name: "eth0".into(), ip_addresses: vec!["10.0.0.1".into(), "fe80::1".into()] },
        NetInterface { name: "vpn0".into(), ip_addresses: vec!["10.8.0.1".into()] },
    ];
    let r = filtered(&ints, &vec![all6]);
    assert_eq!(r[0].ip_addresses, vec!["fe80::1".to_string()]);
    assert!(r[1].ip_addresses.is_empty());
    let r = filtered(&ints, &vec![]);
    assert_eq!(r[0].ip_addresses.len(), 2);
}

#[test]
fn blocks_are_placed_and_signals_routed() {
    let sep_off = Item::new(Common { name: Some("x".into()), separator: Some(false), signal: Some(8), ..Default::default() }, ItemInner::Raw);
    let hidden = Item::new(Common { hidden: Some(true), signal: Some(8), ..Default::default() }, ItemInner::Kbd);
    let plain = Item::new(Common { signal: Some(9), ..Default::default() }, ItemInner::Cpu);
    let b = sep_off.place_block(12, I3Item::new("t").urgent(true));
    assert_eq!(b.instance.as_deref(), Some("12"));
    assert_eq!(b.name.as_deref(), Some("x"));
    assert_eq!(b.separator, Some(false));
    assert_eq!(b.urgent, Some(true));
    assert_eq!(b.full_text, "t");
    // the place written in the block is read back from a click on it
    assert_eq!(parse_usize(b.instance.as_deref().unwrap()), Ok(12));
    assert_eq!(hidden.place_block(1, I3Item::new("t")), I3Item::empty());
    assert_eq!(plain.place_block(2, I3Item::new("t")).name.as_deref(), Some("cpu"));

    let cfg = AppConfig { includes: vec![], theme: theme(), items: vec![sep_off, hidden, plain], socket: None };
    assert_eq!(cfg.signal_targets(8), vec![0, 1]);
    assert_eq!(cfg.signal_targets(9), vec![2]);
    assert_eq!(cfg.signal_targets(1), Vec::<usize>::new());
}

#[test]
fn single_address_interfaces() {
    use_interface();
}

fn use_interface() {
    let t = theme();
    let i = i3stat::bar_items::nic::Interface { name: "wlan0".into(), addr: "10.0.0.2".into() };
    let w = i3stat::bar_items::nic::WirelessInfo { quality: 65, essid: "home".into() };
    let (full, short) = i.format(&t, Some(w));
    let fg = format!(" foreground=\"{}\"", t.yellow.display_rgb());
    assert_eq!(full, format!("<span{}>wlan0(10.0.0.2) 65% at home</span>", fg));
    assert_eq!(short, format!("<span{}>wlan0</span>", fg));
    let (full, _) = i.format(&t, None);
    assert_eq!(full, format!("<span foreground=\"{}\">wlan0(10.0.0.2)</span>", t.green.display_rgb()));
}

#[test]
fn directions_step() {
    assert_eq!(i3stat::pulse::Dir::Next.step(3), 4);
    assert_eq!(i3stat::pulse::Dir::Prev.step(3), 2);
}

#[test]
fn ipc_client_names_and_clicks() {
    let names: Vec<_> = cli_buttons().into_iter().map(|b| button_cli_name(b).unwrap()).collect();
    assert_eq!(names, ["left", "middle", "right", "scroll_up", "scroll_down"]);
    assert_eq!(button_cli_name(I3Button::ScrollLeft), Some("scroll_left"));
    assert_eq!(button_cli_name(I3Button::Unknown), None);
    let mods: Vec<_> = cli_modifiers().into_iter().map(modifier_cli_name).collect();
    assert_eq!(mods, ["control", "mod1", "mod2", "mod3", "mod4", "mod5", "shift"]);

    let c = click_for("disk", I3Button::Left, vec![I3Modifier::Shift], ClickPosition { x: Some(5), ..Default::default() });
    assert_eq!(c.instance.as_deref(), Some("disk"));
    assert_eq!(c.button, I3Button::Left);
    assert_eq!(c.x, 5);
    assert_eq!(c.y, 0);
    assert_eq!(c.output_x, None);
}

#[test]
fn theme_values() {
    assert_eq!(read_theme_value(" true "), ("true".to_string(), ThemeValue::Json));
    assert_eq!(read_theme_value("{\"a\": 1}").1, ThemeValue::Json);
    assert_eq!(read_theme_value("#ff0000"), ("#ff0000".to_string(), ThemeValue::Text));
    assert_eq!(read_theme_value("{broken").1, ThemeValue::Invalid);
    assert_eq!(read_theme_value("'x'").1, ThemeValue::Invalid);
    assert_eq!(classify_theme_value("abc", false), ThemeValue::Text);
    assert_eq!(classify_theme_value("abc", true), ThemeValue::Json);
}

#[test]
fn light_commands() {
    let l = Light { path: None, increment: Some(10) };
    assert_eq!(l.step(), 10);
    assert_eq!(Light::default().step(), 5);
    assert_eq!(Light { path: None, increment: Some(250) }.step(), -6);
    assert_eq!(l.command_action(LightCommand::Increase), LightAction::Adjust(10));
    assert_eq!(l.command_action(LightCommand::Decrease), LightAction::Adjust(-10));
    assert_eq!(l.command_action(LightCommand::SetTo { pct: 42 }), LightAction::SetTo(42));
    assert_eq!(l.click_action(I3Button::Right), Some(LightAction::SetTo(100)));
}

fn found_disk(mp: &str, avail: u64) -> DiskStats {
    DiskStats::new(mp.to_string(), avail, 1000, None)
}

#[test]
fn disk_selection() {
    let all = Disk { interval: Duration::from_secs(5), mounts: vec![], aliases: vec![] };
    assert!(all.shows("/"));
    assert!(all.shows("/home"));
    let some = Disk {
        interval: Duration::from_secs(5),
        mounts: vec!["/".into(), "/home".into()],
        aliases: vec![
            DiskAlias { path: "/home".into(), name: "home".into() },
            DiskAlias { path: "/home".into(), name: "second".into() },
            DiskAlias { path: "/".into(), name: "root".into() },
        ],
    };
    assert!(some.shows("/home"));
    assert!(!some.shows("/boot"));
    assert_eq!(some.alias_for("/home"), Some("home".to_string()));
    assert_eq!(some.alias_for("/"), Some("root".to_string()));
    assert_eq!(some.alias_for("/boot"), None);

    let found = vec![found_disk("/", 1), found_disk("/boot", 2), found_disk("/home", 3)];
    let shown = some.stats(&found);
    assert_eq!(shown.len(), 2);
    assert_eq!(shown[0].mount_point, "/");
    assert_eq!(shown[0].alias, Some("root".to_string()));
    assert_eq!(shown[0].available_bytes, 1);
    assert_eq!(shown[1].mount_point, "/home");
    assert_eq!(shown[1].alias, Some("home".to_string()));
    assert_eq!(shown[1].available_bytes, 3);
    let every = all.stats(&found);
    assert_eq!(every.len(), 3);
    assert_eq!(every[1].mount_point, "/boot");
    assert_eq!(every[1].alias, None);
}

#[test]
fn battery_settings() {
    let listed = Battery {
        interval: Duration::from_secs(5),
        batteries: Some(vec![Bat { path: "/sys/class/power_supply/BAT1".into() }]),
        notify_on_adapter: true,
    };
    let chosen = listed.chosen(vec![Bat { path: "/x/BAT0".into() }, Bat { path: "/x/BAT2".into() }]).unwrap();
    assert_eq!(chosen.len(), 1);
    assert_eq!(chosen[0].path, "/sys/class/power_supply/BAT1");

    let found = Battery { interval: Duration::from_secs(5), batteries: None, notify_on_adapter: false };
    let chosen = found.chosen(vec![Bat { path: "/x/BAT0".into() }, Bat { path: "/x/BAT2".into() }]).unwrap();
    assert_eq!(chosen.len(), 2);
    assert_eq!(chosen[1].path, "/x/BAT2");
    assert_eq!(found.chosen(vec![]).unwrap_err(), "no batteries found");
    let none_listed = Battery { interval: Duration::from_secs(5), batteries: Some(vec![]), notify_on_adapter: false };
    assert_eq!(none_listed.chosen(vec![Bat { path: "/x/BAT0".into() }]).unwrap_err(), "no batteries found");

    assert!(Battery::watts_after_click(false, I3Button::Middle));
    assert!(!Battery::watts_after_click(true, I3Button::Middle));
    assert!(Battery::watts_after_click(true, I3Button::Left));
    assert!(!Battery::watts_after_click(false, I3Button::ScrollUp));

    assert!(found.adapter_notification(true).is_none());
    let n = listed.adapter_notification(false).unwrap();
    assert_eq!(n.summary, "AC Adapter");
    assert_eq!(n.body, "Disconnected");
    assert_eq!(n.urgency, Some(Urgency::Low));
    assert_eq!(listed.adapter_notification(true).unwrap().body, "Connected");
}

#[test]
fn nic_settings() {
    let t = theme();
    let mut nic = Nic {
        interval: None,
        filter: vec![],
        wireless_display: WirelessDisplay::default(),
        wireless_refresh_interval: Some(Duration::from_secs(10)),
    };
    assert_eq!(nic.wireless_display, WirelessDisplay::Percent);
    assert_eq!(nic.wireless_refresh(), Some(Duration::from_secs(10)));
    nic.wireless_display = WirelessDisplay::Hidden;
    assert_eq!(nic.wireless_refresh(), None);
    nic.wireless_display = WirelessDisplay::Dbm;
    nic.wireless_refresh_interval = None;
    assert_eq!(nic.wireless_refresh(), None);

    let mut click = I3ClickEvent::default();
    assert!(!Nic::wants_update(&click));
    click.modifiers = vec![I3Modifier::Shift, I3Modifier::Control];
    assert!(Nic::wants_update(&click));

    let item = Nic::inactive_item(&t);
    assert_eq!(item.full_text, "inactive");
    assert_eq!(item.color, Some(t.dim));
}

#[test]
fn stop_action_default() {
    assert_eq!(StopAction::default(), StopAction::Complete);
    assert_ne!(StopAction::Remove, StopAction::Restart);
}

#[test]
fn env_map_of_other_values() {
    let item = I3Item::new("x")
        .color(HexColor { r: 0, g: 0, b: 128, a: 128 })
        .min_width(I3MinWidth::StringCount(3))
        .markup(I3Markup::Plain)
        .with_data("flag", ItemData::Bool(true))
        .with_data("_raw", ItemData::Json("[1,2]".into()));
    let env = item.as_env_map();
    let keys: Vec<&str> = env.iter().map(|(k, _)| k.as_str()).collect();
    assert_eq!(keys, vec!["full_text", "color", "min_width", "_flag", "_raw"]);
    assert_eq!(env[1].1, "#00008080");
    assert_eq!(env[2].1, "xxx");
    assert_eq!(env[3].1, "true");
    assert_eq!(env[4].1, "[1,2]");
    let named = I3Item::new("y").min_width(I3MinWidth::String("wide".into())).align(I3Align::Left);
    let env = named.as_env_map();
    assert_eq!(env, vec![
        ("full_text".to_string(), "y".to_string()),
        ("min_width".to_string(), "wide".to_string()),
        ("align".to_string(), "left".to_string()),
    ]);
}

#[test]
fn notification_setting_default() {
    use_setting(NotificationSetting::default());
}

fn use_setting(d: NotificationSetting) {
    assert_eq!(d, NotificationSetting::Off);
    for ask in [NotificationSetting::VolumeMute, NotificationSetting::NewSourceSink, NotificationSetting::DefaultsChange] {
        assert!(!d.should_notify(ask));
        assert!(NotificationSetting::All.should_notify(ask));
    }
}

fn has_urgent_data(it: &I3Item) -> bool {
    it.additional_data.iter().any(|(k, v)| k == "_urgent" && *v == ItemData::Bool(true))
}

#[test]
fn powerline_urgent_and_colours() {
    let t = theme();
    let len = t.powerline.len();
    let mut bar = Bar::new(3);
    bar.set(0, I3Item::new("a").instance("0"));
    bar.set(1, I3Item::new("b").instance("1").urgent(true));
    bar.set(2, I3Item::new("c").instance("2"));
    let out = bar.create_powerline_bar(&t);
    assert_eq!(out.len(), 6);
    // only the urgent block carries the urgent state as an extra value
    assert!(!has_urgent_data(&out[1]));
    assert!(has_urgent_data(&out[3]));
    assert!(!has_urgent_data(&out[5]));
    assert_eq!(out[3].urgent, Some(false));
    assert_eq!(out[3].background_color, Some(t.urgent_bg));
    // a block's colours depend only on the shown blocks after it
    assert_eq!(out[5].background_color, Some(t.powerline[0].bg));
    assert_eq!(out[1].background_color, Some(t.powerline[(len - 2 % len) % len].bg));

    let mut longer = Bar::new(4);
    longer.set(0, I3Item::new("z").instance("0"));
    longer.set(1, I3Item::new("a").instance("1"));
    longer.set(2, I3Item::new("b").instance("2").urgent(true));
    longer.set(3, I3Item::new("c").instance("3"));
    let out2 = longer.create_powerline_bar(&t);
    assert_eq!(out2[3].background_color, out[1].background_color);
    assert_eq!(out2[7].background_color, out[5].background_color);
}

fn wav_bytes(channels: u16, rate: u32, bits: u16, float: bool, frames: usize) -> Vec<u8> {
    let spec = hound::WavSpec {
        channels,
        sample_rate: rate,
        bits_per_sample: bits,
        sample_format: if float { hound::SampleFormat::Float } else { hound::SampleFormat::Int },
    };
    let mut out = Cursor::new(Vec::new());
    {
        let mut w = hound::WavWriter::new(&mut out, spec).unwrap();
        for i in 0..frames * channels as usize {
            if float {
                w.write_sample(0.25f32).unwrap();
            } else {
                w.write_sample((i as i32) + 1).unwrap();
            }
        }
        w.finalize().unwrap();
    }
    out.into_inner()
}

#[test]
fn wav_samples() {
    let bytes = wav_bytes(2, 44100, 16, false, 3);
    let (spec, data) = wav_sample(&bytes).unwrap();
    assert_eq!(spec, SampleSpec { format: SampleFormat::S16Ne, rate: 44100, channels: 2 });
    assert_eq!(spec.frame_size(), 4);
    assert_eq!(data.len(), 12);
    assert_eq!(&data[..], &bytes[bytes.len() - 12..]);
    assert_eq!(&data[..4], &[1, 0, 2, 0]);

    // trailing bytes after the data are kept, and padded to whole frames
    let mut longer = bytes.clone();
    longer.push(7);
    let (_, data) = wav_sample(&longer).unwrap();
    assert_eq!(data.len(), 16);
    assert_eq!(&data[12..], &[7, 0, 0, 0]);

    let (spec, data) = wav_sample(&wav_bytes(1, 8000, 24, false, 2)).unwrap();
    assert_eq!(spec.format, SampleFormat::S24Ne);
    assert_eq!(spec.frame_size(), 3);
    assert_eq!(data.len(), 6);
    let (spec, _) = wav_sample(&wav_bytes(1, 8000, 32, true, 1)).unwrap();
    assert_eq!(spec.format, SampleFormat::Float32Ne);
    let (spec, _) = wav_sample(&wav_bytes(1, 8000, 32, false, 1)).unwrap();
    assert_eq!(spec.format, SampleFormat::S32Ne);

    assert_eq!(wav_sample(&wav_bytes(1, 8000, 8, false, 2)).unwrap_err(), "unsupported bits per sample: 8");
    // a header with a sample rate of zero (and so zero bytes per second)
    let mut no_rate = wav_bytes(1, 8000, 16, false, 2);
    for b in &mut no_rate[24..32] {
        *b = 0;
    }
    assert_eq!(
        wav_sample(&no_rate).unwrap_err(),
        "format specification wasn't valid: Spec { format: S16NE, rate: 0, channels: 1 }"
    );
    assert!(wav_sample(b"not a wave file").is_err());
    assert!(!SampleSpec { format: SampleFormat::S16Ne, rate: 44100, channels: 33 }.is_valid());
    assert!(SampleSpec { format: SampleFormat::S16Ne, rate: 768000, channels: 32 }.is_valid());
}
