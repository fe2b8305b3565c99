use vstd::prelude::*;

verus! {

/// A mouse button in an i3bar click event.
#[derive(Debug, Copy, Clone, PartialEq, Eq, Structural)]
pub enum I3Button {
    Left,
    Middle,
    Right,
    ScrollUp,
    ScrollDown,
    ScrollRight,
    ScrollLeft,
    /// Any other button.
    Unknown,
}

/// The number of a button in the i3bar protocol (`Unknown` has none).
pub open spec fn button_code(b: I3Button) -> Option<u8> {
    match b {
        I3Button::Left => Some(1u8),
        I3Button::Middle => Some(2u8),
        I3Button::Right => Some(3u8),
        I3Button::ScrollUp => Some(4u8),
        I3Button::ScrollDown => Some(5u8),
        I3Button::ScrollRight => Some(6u8),
        I3Button::ScrollLeft => Some(7u8),
        I3Button::Unknown => None,
    }
}

impl I3Button {
    /// The number of this button in the i3bar protocol (`Unknown` has none).
    pub fn code(&self) -> (c: Option<u8>)
        ensures
            c == button_code(*self),
    {
        match self {
            I3Button::Left => Some(1),
            I3Button::Middle => Some(2),
            I3Button::Right => Some(3),
            I3Button::ScrollUp => Some(4),
            I3Button::ScrollDown => Some(5),
            I3Button::ScrollRight => Some(6),
            I3Button::ScrollLeft => Some(7),
            I3Button::Unknown => None,
        }
    }

    /// The button with protocol number `code`; numbers without a named button
    /// are `Unknown`.
    pub fn from_code(code: u8) -> (b: I3Button)
        ensures
            1 <= code <= 7 ==> button_code(b) == Some(code),
            !(1 <= code <= 7) ==> b == I3Button::Unknown,
    {
        match code {
            1 => I3Button::Left,
            2 => I3Button::Middle,
            3 => I3Button::Right,
            4 => I3Button::ScrollUp,
            5 => I3Button::ScrollDown,
            6 => I3Button::ScrollRight,
            7 => I3Button::ScrollLeft,
            _ => I3Button::Unknown,
        }
    }
}

impl Default for I3Button {
    fn default() -> (b: I3Button)
        ensures
            b == I3Button::Left,
    {
        I3Button::Left
    }
}

/// A keyboard modifier held during a click.
#[derive(Debug, Copy, Clone, PartialEq, Eq, Structural, Hash)]
pub enum I3Modifier {
    Mod1,
    Mod2,
    Mod3,
    Mod4,
    Mod5,
    Shift,
    Control,
}

/// A click event sent by i3bar.
#[derive(Debug, Default, Clone)]
pub struct I3ClickEvent {
    pub name: Option<String>,
    pub instance: Option<String>,
    pub button: I3Button,
    /// The modifiers held; their order carries no meaning.
    pub modifiers: Vec<I3Modifier>,
    pub x: usize,
    pub y: usize,
    pub relative_x: usize,
    pub relative_y: usize,
    pub output_x: Option<usize>,
    pub output_y: Option<usize>,
    pub width: usize,
    pub height: usize,
}

/// Whether `m` is among `mods`.
pub fn contains_modifier(mods: &Vec<I3Modifier>, m: I3Modifier) -> (r: bool)
    ensures
        r == mods@.contains(m),
{
    let mut i: usize = 0;
    while i < mods.len()
        invariant
            i <= mods@.len(),
            forall|k: int| 0 <= k < i ==> mods@[k] != m,
        decreases mods@.len() - i,
    {
        if mods[i] == m {
            return true;
        }
        i = i + 1;
    }
    false
}

/// Whether two lists hold the same modifiers, regardless of order and repeats.
pub fn same_modifiers(a: &Vec<I3Modifier>, b: &Vec<I3Modifier>) -> (r: bool)
    ensures
        r == (a@.to_set() == b@.to_set()),
{
    let mut i: usize = 0;
    while i < a.len()
        invariant
            i <= a@.len(),
            forall|k: int| 0 <= k < i ==> b@.contains(#[trigger] a@[k]),
        decreases a@.len() - i,
    {
        if !contains_modifier(b, a[i]) {
            proof {
                assert(a@.to_set().contains(a@[i as int]));
                assert(!b@.to_set().contains(a@[i as int]));
            }
            return false;
        }
        i = i + 1;
    }
    let mut j: usize = 0;
    while j < b.len()
        invariant
            j <= b@.len(),
            forall|k: int| 0 <= k < a@.len() ==> b@.contains(#[trigger] a@[k]),
            forall|k: int| 0 <= k < j ==> a@.contains(#[trigger] b@[k]),
        decreases b@.len() - j,
    {
        if !contains_modifier(a, b[j]) {
            proof {
                assert(b@.to_set().contains(b@[j as int]));
                assert(!a@.to_set().contains(b@[j as int]));
            }
            return false;
        }
        j = j + 1;
    }
    proof {
        assert forall|m: I3Modifier| a@.to_set().contains(m) == b@.to_set().contains(m) by {
            if a@.contains(m) {
                let k = choose|k: int| 0 <= k < a@.len() && a@[k] == m;
                assert(b@.contains(a@[k]));
            }
            if b@.contains(m) {
                let k = choose|k: int| 0 <= k < b@.len() && b@[k] == m;
                assert(a@.contains(b@[k]));
            }
        }
        assert(a@.to_set() =~= b@.to_set());
    }
    true
}

/// The header that starts the i3bar protocol stream.
#[derive(Debug, Clone, Copy, PartialEq, Eq, Structural)]
pub struct I3BarHeader {
    pub version: usize,
    pub stop_signal: Option<usize>,
    pub cont_signal: Option<usize>,
    pub click_events: Option<bool>,
}

impl Default for I3BarHeader {
    fn default() -> (h: I3BarHeader)
        ensures
            h == (I3BarHeader { version: 1, stop_signal: None, cont_signal: None, click_events: Some(true) }),
    {
        I3BarHeader { version: 1, stop_signal: None, cont_signal: None, click_events: Some(true) }
    }
}

} // verus!
