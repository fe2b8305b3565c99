//! The keyboard lock item.

use vstd::prelude::*;

use crate::color::{hex_rgb_text, HexColor};
use crate::theme::Theme;

verus! {

/// A lock key.
#[derive(Debug, Clone, Copy, PartialEq, Eq, Structural)]
pub enum Keys {
    CapsLock,
    NumLock,
    ScrollLock,
}

/// The end of the name of the key's LED directory under `/sys/class/leds`.
pub open spec fn suffix_text(k: Keys) -> Seq<char> {
    match k {
        Keys::CapsLock => "::capslock"@,
        Keys::NumLock => "::numlock"@,
        Keys::ScrollLock => "::scrolllock"@,
    }
}

/// The letter shown for a key.
pub open spec fn symbol_text(k: Keys) -> Seq<char> {
    match k {
        Keys::CapsLock => "C"@,
        Keys::NumLock => "N"@,
        Keys::ScrollLock => "S"@,
    }
}

/// The name of a key in the configuration.
pub open spec fn key_name(k: Keys) -> Seq<char> {
    match k {
        Keys::CapsLock => "caps_lock"@,
        Keys::NumLock => "num_lock"@,
        Keys::ScrollLock => "scroll_lock"@,
    }
}

/// The markup for a key, bright when its lock is on.
pub open spec fn key_markup(theme: Theme, k: Keys, on: bool) -> Seq<char> {
    "<span foreground=\""@ + hex_rgb_text(if on { theme.fg } else { theme.dim }) + "\">"@ + symbol_text(k)
        + "</span>"@
}

impl Keys {
    /// All keys, in order.
    pub fn all() -> (r: Vec<Keys>)
        ensures
            r@ == seq![Keys::CapsLock, Keys::NumLock, Keys::ScrollLock],
    {
        let mut r = Vec::new();
        r.push(Keys::CapsLock);
        r.push(Keys::NumLock);
        r.push(Keys::ScrollLock);
        r
    }

    pub fn sys_dir_suffix(&self) -> (r: &'static str)
        ensures
            r@ == suffix_text(*self),
    {
        match self {
            Keys::CapsLock => "::capslock",
            Keys::NumLock => "::numlock",
            Keys::ScrollLock => "::scrolllock",
        }
    }

    pub fn symbol(&self) -> (r: &'static str)
        ensures
            r@ == symbol_text(*self),
    {
        match self {
            Keys::CapsLock => "C",
            Keys::NumLock => "N",
            Keys::ScrollLock => "S",
        }
    }

    /// The error when the key's LED is not found.
    pub fn missing_led_error(&self) -> (r: String)
        ensures
            r@ == "failed to find led file for: \""@ + key_name(*self) + "\""@,
    {
        let mut r = String::from_str("failed to find led file for: \"");
        match self {
            Keys::CapsLock => r.append("caps_lock"),
            Keys::NumLock => r.append("num_lock"),
            Keys::ScrollLock => r.append("scroll_lock"),
        }
        r.append("\"");
        r
    }

    /// Whether a directory under `/sys/class/leds` is this key's LED.
    pub fn is_led_dir(&self, dir_name: &str) -> (r: bool)
        ensures
            r == (dir_name@.len() >= suffix_text(*self).len() && dir_name@.skip(
                dir_name@.len() - suffix_text(*self).len(),
            ) == suffix_text(*self)),
    {
        let suffix = self.sys_dir_suffix();
        let n = dir_name.unicode_len();
        let m = suffix.unicode_len();
        if n < m {
            return false;
        }
        let mut k: usize = 0;
        while k < m
            invariant
                n == dir_name@.len(),
                m == suffix@.len(),
                m <= n,
                suffix@ == suffix_text(*self),
                k <= m,
                forall|q: int| 0 <= q < k ==> dir_name@[n - m + q] == suffix@[q],
            decreases m - k,
        {
            if dir_name.get_char(n - m + k) != suffix.get_char(k) {
                assert(dir_name@.skip(n - m)[k as int] != suffix@[k as int]);
                return false;
            }
            k = k + 1;
        }
        assert(dir_name@.skip(n - m) =~= suffix@);
        true
    }

    /// The markup for this key, with its lock on or off.
    pub fn format(&self, theme: &Theme, is_on: bool) -> (r: String)
        ensures
            r@ == key_markup(*theme, *self, is_on),
    {
        let mut r = String::from_str("<span foreground=\"");
        let c: HexColor = if is_on { theme.fg } else { theme.dim };
        let h = c.display_rgb();
        r.append(h.as_str());
        r.append("\">");
        r.append(self.symbol());
        r.append("</span>");
        r
    }
}

/// The markup of several keys, one after the other.
pub open spec fn keys_markup(theme: Theme, keys: Seq<Keys>, on: Seq<bool>) -> Seq<char>
    decreases keys.len(),
{
    if keys.len() == 0 {
        Seq::empty()
    } else {
        keys_markup(theme, keys.drop_last(), on.drop_last()) + key_markup(theme, keys.last(), on.last())
    }
}

/// The keyboard lock item.
#[derive(Debug, Clone)]
pub struct Kbd {
    /// The keys to show; all when unset.
    pub show: Option<Vec<Keys>>,
}

impl Kbd {
    /// The keys shown.
    pub fn keys(&self) -> (r: Vec<Keys>)
        ensures
            match self.show {
                Some(v) => r@ == v@,
                None => r@ == seq![Keys::CapsLock, Keys::NumLock, Keys::ScrollLock],
            },
    {
        match &self.show {
            Some(v) => {
                let mut r = Vec::new();
                let mut i: usize = 0;
                while i < v.len()
                    invariant
                        i <= v@.len(),
                        r@ == v@.take(i as int),
                    decreases v@.len() - i,
                {
                    r.push(v[i]);
                    i = i + 1;
                    assert(r@ =~= v@.take(i as int));
                }
                assert(v@.take(i as int) =~= v@);
                r
            },
            None => Keys::all(),
        }
    }

    /// The text of the item: each key's markup, with `on[i]` telling whether
    /// the lock of `keys[i]` is on.
    pub fn text(theme: &Theme, keys: &Vec<Keys>, on: &Vec<bool>) -> (r: String)
        requires
            keys@.len() == on@.len(),
        ensures
            r@ == keys_markup(*theme, keys@, on@),
    {
        let mut r = String::new();
        let mut i: usize = 0;
        while i < keys.len()
            invariant
                keys@.len() == on@.len(),
                i <= keys@.len(),
                r@ == keys_markup(*theme, keys@.take(i as int), on@.take(i as int)),
            decreases keys@.len() - i,
        {
            let m = keys[i].format(theme, on[i]);
            r.append(m.as_str());
            proof {
                assert(keys@.take(i + 1).drop_last() =~= keys@.take(i as int));
                assert(on@.take(i + 1).drop_last() =~= on@.take(i as int));
            }
            i = i + 1;
        }
        assert(keys@.take(i as int) =~= keys@);
        assert(on@.take(i as int) =~= on@);
        r
    }
}

} // verus!
