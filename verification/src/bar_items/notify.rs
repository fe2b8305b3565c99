//! Items that show a state: notifications paused (dunst, mako), a kerberos
//! ticket, the time.

use vstd::prelude::*;

use crate::bar_items::block;
use crate::i3::bar_item::{I3Item, I3Markup};
use crate::i3::ipc::{trim, trim_chars};
use crate::theme::Theme;

verus! {

/// The text of a "notifications are paused" block.
pub open spec fn paused_text() -> Seq<char> {
    seq![' ', '\u{f1f6}', ' ', ' ']
}

/// The block for notifications being paused, or an empty one.
pub open spec fn paused_block(it: I3Item, theme: Theme, paused: bool) -> bool {
    if paused {
        block(it, paused_text(), None, Some(theme.bg), Some(theme.yellow), None, Some(I3Markup::Pango))
    } else {
        block(it, Seq::empty(), None, None, None, None, None)
    }
}

fn paused_item(theme: &Theme, paused: bool) -> (r: I3Item)
    ensures
        paused_block(r, *theme, paused),
{
    if paused {
        let mut t = String::new();
        t.push(' ');
        t.push('\u{f1f6}');
        t.push(' ');
        t.push(' ');
        assert(t@ =~= paused_text());
        I3Item::new(t.as_str()).markup(I3Markup::Pango).color(theme.bg).background_color(theme.yellow)
    } else {
        let it = I3Item::empty();
        assert(it.full_text@ =~= Seq::<char>::empty());
        it
    }
}

/// The dunst item.
#[derive(Debug, Clone, Copy)]
pub struct Dunst {}

impl Dunst {
    /// The block for dunst's notifications being paused or not.
    pub fn item(theme: &Theme, paused: bool) -> (r: I3Item)
        ensures
            paused_block(r, *theme, paused),
    {
        paused_item(theme, paused)
    }
}

/// The mode in which mako holds notifications back.
pub open spec fn dnd_mode() -> Seq<char> {
    "do-not-disturb"@
}

/// Whether the text `t` has a line (ending at a `\n` or `\r\n`, or at the
/// end) that is exactly `w`.
pub open spec fn has_line(t: Seq<char>, w: Seq<char>) -> bool {
    exists|i: int|
        0 <= i && i + w.len() <= t.len() && #[trigger] t.subrange(i, i + w.len()) == w && (i == 0 || t[i - 1]
            == '\n') && ({
            let j = i + w.len();
            ||| j == t.len()
            ||| t[j] == '\n'
            ||| (t[j] == '\r' && j + 1 < t.len() && t[j + 1] == '\n')
        })
}

/// The mako item.
#[derive(Debug, Clone, Copy)]
pub struct Mako {}

impl Mako {
    /// The block for mako's do-not-disturb mode being on or not.
    pub fn item(theme: &Theme, dnd_on: bool) -> (r: I3Item)
        ensures
            paused_block(r, *theme, dnd_on),
    {
        paused_item(theme, dnd_on)
    }

    /// Whether `makoctl mode`'s output lists the do-not-disturb mode: one of
    /// the lines of the trimmed output is exactly that mode.
    pub fn contains_dnd_mode(stdout: &str) -> (r: bool)
        ensures
            r == has_line(trim(stdout@), dnd_mode()),
    {
        let t = trim_chars(stdout);
        let w: Vec<char> = crate::text::chars_of("do-not-disturb");
        proof {
            reveal_strlit("do-not-disturb");
        }
        let n = t.len();
        let m = w.len();
        let mut i: usize = 0;
        while m <= n && i <= n - m
            invariant
                t@ == trim(stdout@),
                w@ == dnd_mode(),
                n == t@.len(),
                m == w@.len(),
                m == 14,
                forall|k: int| 0 <= k < i && k + m <= n ==> !(#[trigger] t@.subrange(k, k + m) == w@ && (k == 0 || t@[k
                    - 1] == '\n') && ({
                    let j = k + m;
                    ||| j == n
                    ||| t@[j] == '\n'
                    ||| (t@[j] == '\r' && j + 1 < n && t@[j + 1] == '\n')
                })),
            decreases n - i,
        {
            let start_ok = i == 0 || t[i - 1] == '\n';
            if start_ok && matches_at(&t, i, &w) {
                let j = i + m;
                let end_ok = j == n || t[j] == '\n' || (t[j] == '\r' && j + 1 < n && t[j + 1] == '\n');
                if end_ok {
                    return true;
                }
            }
            i = i + 1;
        }
        proof {
            assert forall|k: int| 0 <= k && k + m <= n implies !(#[trigger] t@.subrange(k, k + m) == w@ && (k == 0 || t@[k - 1] == '\n') && ({
                let j = k + m;
                ||| j == n
                ||| t@[j] == '\n'
                ||| (t@[j] == '\r' && j + 1 < n && t@[j + 1] == '\n')
            })) by {
            }
        }
        false
    }
}

/// Whether `w` occurs in `t` at `i`.
fn matches_at(t: &Vec<char>, i: usize, w: &Vec<char>) -> (r: bool)
    requires
        i + w@.len() <= t@.len(),
    ensures
        r == (t@.subrange(i as int, i + w@.len()) == w@),
{
    let tl = t.len();
    let mut k: usize = 0;
    while k < w.len()
        invariant
            tl == t@.len(),
            i + w@.len() <= t@.len(),
            k <= w@.len(),
            forall|q: int| 0 <= q < k ==> t@[i + q] == w@[q],
        decreases w@.len() - k,
    {
        if t[i + k] != w[k] {
            assert(t@.subrange(i as int, i + w@.len())[k as int] != w@[k as int]);
            return false;
        }
        k = k + 1;
    }
    assert(t@.subrange(i as int, i + w@.len()) =~= w@);
    true
}

/// The kerberos item.
#[derive(Debug, Clone, Copy)]
pub struct Krb {}

impl Krb {
    /// The block for holding a valid ticket (`has_ticket`) or not.
    pub fn item(theme: &Theme, has_ticket: bool) -> (r: I3Item)
        ensures
            block(r, seq!['\u{f1575}'], None, Some(if has_ticket { theme.fg } else { theme.dim }), None, None,
                Some(I3Markup::Pango)),
    {
        let mut t = String::new();
        t.push('\u{f1575}');
        I3Item::new(t.as_str()).markup(I3Markup::Pango).color(if has_ticket { theme.fg } else { theme.dim })
    }
}

/// The time item.
#[derive(Debug, Clone)]
pub struct Time {
    /// The `strftime` format of the long text.
    pub format_long: String,
    /// The `strftime` format of the short text.
    pub format_short: String,
}

impl Time {
    /// The block for the time, written `long` and `short`.
    pub fn item(long: &str, short: &str) -> (r: I3Item)
        ensures
            block(r, seq!['\u{f0954}', ' '] + long@, Some(short@), None, None, None, Some(I3Markup::Pango)),
    {
        let mut t = String::new();
        t.push('\u{f0954}');
        t.push(' ');
        t.append(long);
        assert(t@ =~= seq!['\u{f0954}', ' '] + long@);
        I3Item::new(t.as_str()).short_text(short).markup(I3Markup::Pango)
    }
}

} // verus!
