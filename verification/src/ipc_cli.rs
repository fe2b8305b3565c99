//! What the IPC command line client decides: the names of buttons and
//! modifiers it accepts, the click events it sends, and how it reads a new
//! theme value.

use vstd::prelude::*;

use crate::i3::click::{I3Button, I3ClickEvent, I3Modifier};
use crate::i3::ipc::{trim, trim_str};

verus! {

/// The buttons a click can be sent with, in the order they are offered.
pub fn cli_buttons() -> (r: Vec<I3Button>)
    ensures
        r@ == seq![I3Button::Left, I3Button::Middle, I3Button::Right, I3Button::ScrollUp, I3Button::ScrollDown],
{
    let mut r = Vec::new();
    r.push(I3Button::Left);
    r.push(I3Button::Middle);
    r.push(I3Button::Right);
    r.push(I3Button::ScrollUp);
    r.push(I3Button::ScrollDown);
    r
}

/// The command-line name of a button.
pub open spec fn button_name(b: I3Button) -> Option<Seq<char>> {
    match b {
        I3Button::Left => Some("left"@),
        I3Button::Middle => Some("middle"@),
        I3Button::Right => Some("right"@),
        I3Button::ScrollUp => Some("scroll_up"@),
        I3Button::ScrollDown => Some("scroll_down"@),
        I3Button::ScrollRight => Some("scroll_right"@),
        I3Button::ScrollLeft => Some("scroll_left"@),
        I3Button::Unknown => None,
    }
}

/// The command-line name of a button, if it has one.
pub fn button_cli_name(b: I3Button) -> (r: Option<&'static str>)
    ensures
        match button_name(b) {
            Some(n) => r matches Some(s) && s@ == n,
            None => r is None,
        },
{
    match b {
        I3Button::Left => Some("left"),
        I3Button::Middle => Some("middle"),
        I3Button::Right => Some("right"),
        I3Button::ScrollUp => Some("scroll_up"),
        I3Button::ScrollDown => Some("scroll_down"),
        I3Button::ScrollRight => Some("scroll_right"),
        I3Button::ScrollLeft => Some("scroll_left"),
        I3Button::Unknown => None,
    }
}

/// The modifiers a click can be sent with, in the order they are offered.
pub fn cli_modifiers() -> (r: Vec<I3Modifier>)
    ensures
        r@ == seq![
            I3Modifier::Control,
            I3Modifier::Mod1,
            I3Modifier::Mod2,
            I3Modifier::Mod3,
            I3Modifier::Mod4,
            I3Modifier::Mod5,
            I3Modifier::Shift,
        ],
{
    let mut r = Vec::new();
    r.push(I3Modifier::Control);
    r.push(I3Modifier::Mod1);
    r.push(I3Modifier::Mod2);
    r.push(I3Modifier::Mod3);
    r.push(I3Modifier::Mod4);
    r.push(I3Modifier::Mod5);
    r.push(I3Modifier::Shift);
    r
}

/// The command-line name of a modifier.
pub open spec fn modifier_name(m: I3Modifier) -> Seq<char> {
    match m {
        I3Modifier::Control => "control"@,
        I3Modifier::Mod1 => "mod1"@,
        I3Modifier::Mod2 => "mod2"@,
        I3Modifier::Mod3 => "mod3"@,
        I3Modifier::Mod4 => "mod4"@,
        I3Modifier::Mod5 => "mod5"@,
        I3Modifier::Shift => "shift"@,
    }
}

/// The command-line name of a modifier.
pub fn modifier_cli_name(m: I3Modifier) -> (r: &'static str)
    ensures
        r@ == modifier_name(m),
{
    match m {
        I3Modifier::Control => "control",
        I3Modifier::Mod1 => "mod1",
        I3Modifier::Mod2 => "mod2",
        I3Modifier::Mod3 => "mod3",
        I3Modifier::Mod4 => "mod4",
        I3Modifier::Mod5 => "mod5",
        I3Modifier::Shift => "shift",
    }
}

/// Where and how a click sent from the command line happened; what is not
/// given is zero.
#[derive(Debug, Clone, Copy, Default)]
pub struct ClickPosition {
    pub x: Option<usize>,
    pub y: Option<usize>,
    pub relative_x: Option<usize>,
    pub relative_y: Option<usize>,
    pub output_x: Option<usize>,
    pub output_y: Option<usize>,
    pub width: Option<usize>,
    pub height: Option<usize>,
}

/// `o`, or zero.
pub open spec fn or_zero(o: Option<usize>) -> usize {
    match o {
        Some(v) => v,
        None => 0,
    }
}

fn value_or_zero(o: Option<usize>) -> (r: usize)
    ensures
        r == or_zero(o),
{
    match o {
        Some(v) => v,
        None => 0,
    }
}

/// The click event that the client sends to `target`.
pub fn click_for(target: &str, button: I3Button, modifiers: Vec<I3Modifier>, pos: ClickPosition) -> (r: I3ClickEvent)
    ensures
        r.name is None,
        r.instance matches Some(t) && t@ == target@,
        r.button == button,
        r.modifiers@ == modifiers@,
        r.x == or_zero(pos.x),
        r.y == or_zero(pos.y),
        r.relative_x == or_zero(pos.relative_x),
        r.relative_y == or_zero(pos.relative_y),
        r.output_x == pos.output_x,
        r.output_y == pos.output_y,
        r.width == or_zero(pos.width),
        r.height == or_zero(pos.height),
{
    I3ClickEvent {
        name: None,
        instance: Some(String::from_str(target)),
        button,
        modifiers,
        x: value_or_zero(pos.x),
        y: value_or_zero(pos.y),
        relative_x: value_or_zero(pos.relative_x),
        relative_y: value_or_zero(pos.relative_y),
        output_x: pos.output_x,
        output_y: pos.output_y,
        width: value_or_zero(pos.width),
        height: value_or_zero(pos.height),
    }
}

/// How a new theme value given on the command line is read.
#[derive(Debug, Clone, Copy, PartialEq, Eq, Structural)]
pub enum ThemeValue {
    /// It is JSON.
    Json,
    /// It is taken as a plain string.
    Text,
    /// It looks like JSON but is not: the parse error is reported.
    Invalid,
}

/// A name for whether `serde_json` reads `s` as a JSON value.
pub uninterp spec fn json_parses(s: Seq<char>) -> bool;

/// `serde_json::from_str::<serde_json::Value>`: whether the text is one JSON
/// value (with white space around it allowed). The claim is only that the
/// answer is `json_parses` of the text.
#[verifier::external_body]
fn parses_as_json(s: &str) -> (r: bool)
    ensures
        r == json_parses(s@),
{
    serde_json::from_str::<serde_json::Value>(s).is_ok()
}

/// Whether `s` starts like a JSON array, object or string (or a quoted one).
pub open spec fn looks_like_json(s: Seq<char>) -> bool {
    s.len() > 0 && (s[0] == '[' || s[0] == '{' || s[0] == '\'' || s[0] == '"')
}

/// How a trimmed value is read, given whether it parses as JSON: a value
/// that does not parse is taken as a string unless it looks like JSON.
pub open spec fn theme_value_of(trimmed: Seq<char>, parses: bool) -> ThemeValue {
    if parses {
        ThemeValue::Json
    } else if !looks_like_json(trimmed) {
        ThemeValue::Text
    } else {
        ThemeValue::Invalid
    }
}

/// How a trimmed value is read, given whether it parses as JSON.
pub fn classify_theme_value(trimmed: &str, parses: bool) -> (r: ThemeValue)
    ensures
        r == theme_value_of(trimmed@, parses),
{
    if parses {
        return ThemeValue::Json;
    }
    let starts = trimmed.unicode_len() > 0 && {
        let c = trimmed.get_char(0);
        c == '[' || c == '{' || c == '\'' || c == '"'
    };
    if !starts {
        ThemeValue::Text
    } else {
        ThemeValue::Invalid
    }
}

/// Reads a new theme value given on the command line: the value without
/// white space at either end, and how it is taken.
pub fn read_theme_value(value: &str) -> (r: (String, ThemeValue))
    ensures
        r.0@ == trim(value@),
        r.1 == theme_value_of(trim(value@), json_parses(trim(value@))),
{
    let trimmed = trim_str(value);
    let parses = parses_as_json(trimmed.as_str());
    let kind = classify_theme_value(trimmed.as_str(), parses);
    (trimmed, kind)
}

} // verus!
