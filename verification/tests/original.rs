use i3stat::bar::Bar;
use i3stat::cell::RcCell;
use i3stat::color::HexColor;
use i3stat::config::{AppConfig, Common, Item, ItemInner};
use std::collections::HashMap;

use i3stat::i3::bar_item::{I3Align, I3Markup, I3MinWidth, ItemData};
use i3stat::i3::I3Item;
use i3stat::ipc::{decode_ipc_header, encode_ipc_msg, IPC_HEADER_LEN};
use i3stat::pulse::{DevicePortType, Dir, InOut, Port, PortAvailable};
use i3stat::theme::Theme;

fn item(name: Option<&str>, index: Option<usize>) -> Item {
    Item::new(
        Common {
            name: name.map(|n| n.to_string()),
            index,
            ..Default::default()
        },
        ItemInner::Raw,
    )
}

fn names(items: &[Item]) -> Vec<String> {
    items.iter().map(|i| i.name()).collect()
}

#[test]
fn properly_format_separator_with_empty() {
    let mut bar = Bar::new(3);

    // first item: has a red background
    bar.set(0, I3Item::new("0").instance("0").background_color(HexColor::red()));
    // second item: empty (should not be displayed)
    bar.set(1, I3Item::new("").instance("1"));
    // third item: separator of this one should skip second item, and be the first item's colour
    bar.set(2, I3Item::new("2").instance("2"));

    let items = bar.create_powerline_bar(&Theme::default());
    // 4 because bar[1] is empty and should be skipped
    assert_eq!(items.len(), 4);
    // separator should be red
    assert_eq!(items[2].get_background_color(), Some(&HexColor::red()));
}

#[test]
fn format_sep_with_all_empty() {
    let mut bar = Bar::new(3);

    bar.set(0, I3Item::new("").instance("0"));
    bar.set(1, I3Item::new("").instance("1"));
    bar.set(2, I3Item::new("foo").instance("2").background_color(HexColor::red()));

    let items = bar.create_powerline_bar(&Theme::default());
    assert_eq!(items.len(), 2);
    // separator should be red
    assert_eq!(items[0].get_color(), Some(&HexColor::red()));
    assert_eq!(items[0].get_background_color(), None);
    // item itself is red
    assert_eq!(items[1].get_background_color(), Some(&HexColor::red()));
}

fn port(name: &str, available: PortAvailable, port_type: DevicePortType) -> Port {
    Port {
        name: name.into(),
        description: name.into(),
        available,
        port_type,
    }
}

fn obj(index: u32, name: &str, ports: &Vec<Port>, active: usize) -> InOut {
    InOut {
        index,
        name: name.into(),
        volume: Vec::new(),
        mute: false,
        ports: ports.clone(),
        active_port: ports.get(active).cloned(),
        is_source_monitor: false,
    }
}

#[test]
fn port_cycling_single_port() {
    let ports = vec![port("a", PortAvailable::Yes, DevicePortType::Speaker)];
    let obj = obj(0, "one", &ports, 0);
    assert_eq!(obj.current_port_idx(), 0);
    assert_eq!(obj.first_port(), Some(&ports[0]));
    assert_eq!(obj.next_port(Dir::Next), None);
    assert_eq!(obj.next_port(Dir::Prev), None);
}

#[test]
fn port_cycling_two_ports() {
    let ports = vec![
        port("a", PortAvailable::Yes, DevicePortType::Speaker),
        port("b", PortAvailable::Yes, DevicePortType::Speaker),
    ];

    let o = obj(0, "one", &ports, 0);
    assert_eq!(o.current_port_idx(), 0);
    assert_eq!(o.first_port(), Some(&ports[0]));

    let o = obj(0, "one", &ports, 1);
    assert_eq!(o.next_port(Dir::Next), None);
    assert_eq!(o.next_port(Dir::Prev), Some(&ports[0]));
}

#[test]
fn port_cycling_skip_unavailable() {
    let ports = vec![
        port("a", PortAvailable::Yes, DevicePortType::Speaker),
        port("b", PortAvailable::No, DevicePortType::Speaker),
        port("c", PortAvailable::Unknown, DevicePortType::Speaker),
    ];

    let o = obj(0, "one", &ports, 0);
    assert_eq!(o.next_port(Dir::Next), Some(&ports[2]));
    assert_eq!(o.next_port(Dir::Prev), None);
    let o = obj(0, "one", &ports, 2);
    assert_eq!(o.next_port(Dir::Next), None);
    assert_eq!(o.next_port(Dir::Prev), Some(&ports[0]));
}

#[test]
fn dir_cycle_none() {
    let empty: [(); 0] = [];
    assert_eq!(Dir::Next.cycle(0, &empty, |_| true), None);
    assert_eq!(Dir::Prev.cycle(0, &empty, |_| true), None);
}

#[test]
fn dir_cycle_one() {
    assert_eq!(Dir::Next.cycle(0, &[1], |_| true), Some(&1));
    assert_eq!(Dir::Prev.cycle(0, &[1], |_| true), Some(&1));
}

#[test]
fn dir_cycle_one_filter() {
    assert_eq!(Dir::Next.cycle(0, &[1], |_| false), None);
    assert_eq!(Dir::Prev.cycle(0, &[1], |_| false), None);
}

#[test]
fn dir_cycle_many() {
    assert_eq!(Dir::Next.cycle(0, &[1, 2, 3], |_| true), Some(&2));
    assert_eq!(Dir::Next.cycle(1, &[1, 2, 3], |_| true), Some(&3));
    assert_eq!(Dir::Next.cycle(2, &[1, 2, 3], |_| true), Some(&1));

    assert_eq!(Dir::Prev.cycle(0, &[1, 2, 3], |_| true), Some(&3));
    assert_eq!(Dir::Prev.cycle(1, &[1, 2, 3], |_| true), Some(&1));
    assert_eq!(Dir::Prev.cycle(2, &[1, 2, 3], |_| true), Some(&2));
}

#[test]
fn dir_cycle_many_filter() {
    assert_eq!(Dir::Next.cycle(0, &[1, 2, 3], |x| **x != 2), Some(&3));
    assert_eq!(Dir::Next.cycle(1, &[1, 2, 3], |x| **x != 2), Some(&3));
    assert_eq!(Dir::Next.cycle(2, &[1, 2, 3], |x| **x != 2), Some(&1));

    assert_eq!(Dir::Prev.cycle(0, &[1, 2, 3], |x| **x != 2), Some(&3));
    assert_eq!(Dir::Prev.cycle(1, &[1, 2, 3], |x| **x != 2), Some(&1));
    assert_eq!(Dir::Prev.cycle(2, &[1, 2, 3], |x| **x != 2), Some(&1));

    assert_eq!(Dir::Next.cycle(0, &[1, 2, 3], |x| **x == 9), None);
    assert_eq!(Dir::Next.cycle(1, &[1, 2, 3], |x| **x == 9), None);
    assert_eq!(Dir::Next.cycle(2, &[1, 2, 3], |x| **x == 9), None);

    assert_eq!(Dir::Prev.cycle(0, &[1, 2, 3], |x| **x == 9), None);
    assert_eq!(Dir::Prev.cycle(1, &[1, 2, 3], |x| **x == 9), None);
    assert_eq!(Dir::Prev.cycle(2, &[1, 2, 3], |x| **x == 9), None);
}

#[test]
fn dir_cycle_start_past_end() {
    assert_eq!(Dir::Next.cycle(999, &[1], |_| true), Some(&1));
}

#[test]
fn deref() {
    let data = RcCell::new(vec![1, 2, 3, 4]);
    let interface = |slice: &[i32]| assert_eq!(slice, &[1, 2, 3, 4]);
    interface(&data);
}

#[test]
fn index() {
    let mut bar = RcCell::new(vec![String::new()]);
    // assert index
    assert_eq!(&bar[0], "");
    // do index mut
    bar.set_at(0, String::from("hello"));
    // assert mutation
    assert_eq!(&bar[0], "hello");
}

#[test]
fn config_item_tags() {
    let expected = [
        (ItemInner::Raw, "raw"),
        (ItemInner::Battery, "battery"),
        (ItemInner::Cpu, "cpu"),
        (ItemInner::Disk, "disk"),
        (ItemInner::Dunst, "dunst"),
        (ItemInner::Kbd, "kbd"),
        (ItemInner::Krb, "krb"),
        (ItemInner::Mem, "mem"),
        (ItemInner::NetUsage, "net_usage"),
        (ItemInner::Nic, "nic"),
        (ItemInner::Pulse, "pulse"),
        (ItemInner::Script, "script"),
        (ItemInner::Sensors, "sensors"),
        (ItemInner::Time, "time"),
    ];
    for (variant, tag) in expected {
        assert_eq!(variant.tag(), tag, "item tags did not match, expected {} got {}", tag, variant.tag());
    }
}

#[test]
fn item_item_tags() {
    let expected = [
        (ItemInner::Raw, "raw"),
        (ItemInner::Battery, "battery"),
        (ItemInner::Cpu, "cpu"),
        (ItemInner::Disk, "disk"),
        (ItemInner::Dunst, "dunst"),
        (ItemInner::Kbd, "kbd"),
        (ItemInner::Krb, "krb"),
        (ItemInner::Light, "light"),
        (ItemInner::Mako, "mako"),
        (ItemInner::Mem, "mem"),
        (ItemInner::NetUsage, "net_usage"),
        (ItemInner::Nic, "nic"),
        (ItemInner::Pulse, "pulse"),
        (ItemInner::Script, "script"),
        (ItemInner::Sensors, "sensors"),
        (ItemInner::Time, "time"),
    ];
    for (variant, tag) in expected {
        assert_eq!(variant.tag(), tag, "item tags did not match, expected {} got {}", tag, variant.tag());
    }
}

#[test]
fn validate_names() {
    AppConfig::validate_names(&[item(None, None), item(None, None)]).unwrap();
    AppConfig::validate_names(&[item(Some("a"), None), item(Some("b"), None)]).unwrap();
    AppConfig::validate_names(&[
        item(None, None),
        item(Some("a"), None),
        item(Some("b"), None),
        item(Some("c"), None),
        item(None, None),
    ])
    .unwrap();
}

#[test]
#[should_panic(expected = "item names must be unique, item[3] and item[1] share the same name: c")]
fn validate_names_duplicate() {
    AppConfig::validate_names(&[
        item(Some("a"), None),
        item(Some("c"), None),
        item(Some("d"), None),
        item(Some("c"), None),
    ])
    .unwrap();
}

#[test]
fn sort_does_nothing() {
    let mut items = vec![item(Some("a"), None), item(Some("b"), None), item(Some("c"), None)];
    AppConfig::sort(&mut items);
    assert_eq!(names(&items), ["a", "b", "c"]);
}

#[test]
fn sort_one_index() {
    let mut items = vec![item(Some("a"), None), item(Some("b"), Some(0)), item(Some("c"), None)];
    AppConfig::sort(&mut items);
    assert_eq!(names(&items), ["b", "a", "c"]);
}

#[test]
fn sort_all_same_index() {
    let mut items = vec![item(Some("a"), Some(0)), item(Some("b"), Some(0)), item(Some("c"), Some(0))];
    AppConfig::sort(&mut items);
    assert_eq!(names(&items), ["c", "b", "a"]);
}

#[test]
fn sort_oob_index() {
    let mut items = vec![item(Some("a"), Some(42)), item(Some("b"), Some(1729)), item(Some("c"), Some(9001))];
    AppConfig::sort(&mut items);
    assert_eq!(names(&items), ["b", "a", "c"]);
}

#[test]
fn sort_reverse() {
    let mut items = vec![item(Some("a"), Some(2)), item(Some("b"), Some(1)), item(Some("c"), Some(0))];
    AppConfig::sort(&mut items);
    assert_eq!(names(&items), ["a", "b", "c"]);
}

#[test]
fn test_encode_ipc_msg() {
    // the JSON of `IpcMessage::Info`
    let bytes = encode_ipc_msg(br#""info""#);
    let header = &bytes[0..IPC_HEADER_LEN];
    let body = &bytes[IPC_HEADER_LEN..];
    assert_eq!(header, 6_u64.to_le_bytes());
    assert_eq!(body, br#""info""#);
    assert_eq!(decode_ipc_header(header), 6);
}

#[test]
fn test_encode_ipc_reply() {
    // the JSON of `IpcReply::Result(IpcResult::Success(None))`
    let bytes = encode_ipc_msg(br#"{"result":{"type":"success","detail":null}}"#);
    let header = &bytes[0..IPC_HEADER_LEN];
    let body = &bytes[IPC_HEADER_LEN..];
    assert_eq!(header, 43_u64.to_le_bytes());
    assert_eq!(body, br#"{"result":{"type":"success","detail":null}}"#);
    assert_eq!(decode_ipc_header(header), 43);
}

#[test]
fn as_env_map() {
    let item = I3Item::new("full_text")
        .with_data("custom_field", ItemData::Text("custom_field".into()))
        .align(I3Align::Center)
        .background_color(HexColor::magenta())
        .border_bottom_px(1)
        .border_color(HexColor::cyan())
        .border_left_px(2)
        .border_right_px(3)
        .border_top_px(4)
        .color(HexColor::green())
        .full_text("full_text")
        .instance("instance")
        .markup(I3Markup::Pango)
        .min_width(I3MinWidth::Pixels(5))
        .separator_block_width_px(6)
        .separator(true)
        .short_text("short_text")
        .urgent(false);

    let got: HashMap<String, String> = item.as_env_map().into_iter().collect();
    let expected: HashMap<String, String> = [
        ("_custom_field", "custom_field"),
        ("align", "center"),
        ("background", "#FF00FF"),
        ("border", "#00FFFF"),
        ("border_bottom", "1"),
        ("border_left", "2"),
        ("border_right", "3"),
        ("border_top", "4"),
        ("color", "#00FF00"),
        ("full_text", "full_text"),
        ("instance", "instance"),
        ("markup", "pango"),
        ("min_width", "5"),
        ("separator", "true"),
        ("separator_block_width", "6"),
        ("short_text", "short_text"),
        ("urgent", "false"),
    ]
    .into_iter()
    .map(|(k, v)| (k.to_string(), v.to_string()))
    .collect();
    assert_eq!(serde_json::to_value(got).unwrap(), serde_json::to_value(expected).unwrap());
}
