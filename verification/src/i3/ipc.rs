//! What the bar does with the click events that i3bar writes to its stdin.

use vstd::prelude::*;

use crate::config::{Action, ActionWrapper, Actions, Item};
use crate::i3::click::{same_modifiers, I3Button, I3ClickEvent, I3Modifier};
use crate::text::{parse_usize, parse_usize_spec};

verus! {

/// Unicode's `White_Space` characters (std's `char::is_whitespace`).
pub open spec fn is_whitespace(c: char) -> bool {
    ||| '\u{9}' <= c <= '\u{d}'
    ||| c == ' '
    ||| c == '\u{85}'
    ||| c == '\u{a0}'
    ||| c == '\u{1680}'
    ||| '\u{2000}' <= c <= '\u{200a}'
    ||| c == '\u{2028}'
    ||| c == '\u{2029}'
    ||| c == '\u{202f}'
    ||| c == '\u{205f}'
    ||| c == '\u{3000}'
}

/// Whether `c` is white space.
pub fn whitespace(c: char) -> (r: bool)
    ensures
        r == is_whitespace(c),
{
    ('\u{9}' <= c && c <= '\u{d}') || c == ' ' || c == '\u{85}' || c == '\u{a0}' || c == '\u{1680}'
        || ('\u{2000}' <= c && c <= '\u{200a}') || c == '\u{2028}' || c == '\u{2029}' || c == '\u{202f}'
        || c == '\u{205f}' || c == '\u{3000}'
}

/// `s` without its leading white space and commas.
pub open spec fn skip_separators(s: Seq<char>) -> Seq<char>
    decreases s.len(),
{
    if s.len() > 0 && (is_whitespace(s[0]) || s[0] == ',') {
        skip_separators(s.drop_first())
    } else {
        s
    }
}

/// `s` without its leading white space.
pub open spec fn trim_start(s: Seq<char>) -> Seq<char>
    decreases s.len(),
{
    if s.len() > 0 && is_whitespace(s[0]) {
        trim_start(s.drop_first())
    } else {
        s
    }
}

/// `s` without its trailing white space.
pub open spec fn trim_end(s: Seq<char>) -> Seq<char>
    decreases s.len(),
{
    if s.len() > 0 && is_whitespace(s.last()) {
        trim_end(s.drop_last())
    } else {
        s
    }
}

/// `s` without white space at either end.
pub open spec fn trim(s: Seq<char>) -> Seq<char> {
    trim_end(trim_start(s))
}

proof fn lemma_skip_step(s: Seq<char>, i: int)
    requires
        0 <= i < s.len(),
        is_whitespace(s[i]) || s[i] == ',',
    ensures
        skip_separators(s.skip(i)) == skip_separators(s.skip(i + 1)),
{
    assert(s.skip(i).drop_first() =~= s.skip(i + 1));
}

proof fn lemma_trim_start_step(s: Seq<char>, i: int)
    requires
        0 <= i < s.len(),
        is_whitespace(s[i]),
    ensures
        trim_start(s.skip(i)) == trim_start(s.skip(i + 1)),
{
    assert(s.skip(i).drop_first() =~= s.skip(i + 1));
}

proof fn lemma_trim_end_step(s: Seq<char>, j: int)
    requires
        0 < j <= s.len(),
        is_whitespace(s[j - 1]),
    ensures
        trim_end(s.take(j)) == trim_end(s.take(j - 1)),
{
    assert(s.take(j).drop_last() =~= s.take(j - 1));
}

/// The characters of `s` without white space at either end.
pub fn trim_chars(s: &str) -> (r: Vec<char>)
    ensures
        r@ == trim(s@),
{
    let v = crate::text::chars_of(s);
    let n = v.len();
    let mut i: usize = 0;
    assert(s@.skip(0) =~= s@);
    while i < n && whitespace(v[i])
        invariant
            v@ == s@,
            n == v@.len(),
            i <= n,
            trim_start(s@) == trim_start(s@.skip(i as int)),
        decreases n - i,
    {
        assert(s@.skip(i as int).drop_first() =~= s@.skip(i + 1));
        i = i + 1;
    }
    let ghost start = s@.skip(i as int);
    let mut j: usize = n;
    assert(start.take(n - i) =~= start);
    while j > i && whitespace(v[j - 1])
        invariant
            v@ == s@,
            n == v@.len(),
            i <= j <= n,
            start == s@.skip(i as int),
            trim(s@) == trim_end(start.take(j - i)),
        decreases j,
    {
        assert(start.take(j - i).drop_last() =~= start.take(j - i - 1));
        assert(start.take(j - i).last() == v@[j - 1]);
        j = j - 1;
    }
    let mut r: Vec<char> = Vec::new();
    let mut k: usize = i;
    while k < j
        invariant
            v@ == s@,
            i <= k <= j <= n,
            n == v@.len(),
            r@ == v@.subrange(i as int, k as int),
        decreases j - k,
    {
        r.push(v[k]);
        k = k + 1;
        assert(r@ =~= v@.subrange(i as int, k as int));
    }
    assert(trim(s@) =~= r@);
    r
}

/// `s` without white space at either end (std's `str::trim`).
pub fn trim_str(s: &str) -> (r: String)
    ensures
        r@ == trim(s@),
{
    let v = trim_chars(s);
    let mut r = String::new();
    let mut k: usize = 0;
    while k < v.len()
        invariant
            k <= v@.len(),
            r@ == v@.take(k as int),
        decreases v@.len() - k,
    {
        r.push(v[k]);
        k = k + 1;
        assert(r@ =~= v@.take(k as int));
    }
    assert(v@.take(k as int) =~= v@);
    r
}

/// The JSON of a click event in one line of i3bar's output, or `None` for the
/// line that opens the endless array.
pub fn click_line_body(line: &str) -> (r: Option<String>)
    ensures
        trim(line@) == seq!['['] ==> r is None,
        trim(line@) != seq!['['] ==> (r matches Some(b) && b@ == skip_separators(line@)),
{
    let n = line.unicode_len();
    // leading white space
    let mut i: usize = 0;
    assert(line@.skip(0) =~= line@);
    while i < n && whitespace(line.get_char(i))
        invariant
            n == line@.len(),
            i <= n,
            trim_start(line@) == trim_start(line@.skip(i as int)),
        decreases n - i,
    {
        proof {
            lemma_trim_start_step(line@, i as int);
        }
        i = i + 1;
    }
    let ghost start = line@.skip(i as int);
    assert(trim_start(line@) == start);
    // trailing white space
    let mut j: usize = n;
    assert(start.take(n - i) =~= start);
    while j > i && whitespace(line.get_char(j - 1))
        invariant
            n == line@.len(),
            i <= j <= n,
            start == line@.skip(i as int),
            trim(line@) == trim_end(start.take(j - i)),
        decreases j,
    {
        proof {
            assert(start.take(j - i)[j - i - 1] == line@[j - 1]);
            lemma_trim_end_step(start, (j - i) as int);
        }
        j = j - 1;
    }
    assert(trim(line@) =~= line@.subrange(i as int, j as int));
    if j > i && j - i == 1 && line.get_char(i) == '[' {
        assert(trim(line@) =~= seq!['[']);
        return None;
    }
    // the body: skip white space and commas
    let mut k: usize = 0;
    assert(line@.skip(0) =~= line@);
    while k < n && (whitespace(line.get_char(k)) || line.get_char(k) == ',')
        invariant
            n == line@.len(),
            k <= n,
            skip_separators(line@) == skip_separators(line@.skip(k as int)),
        decreases n - k,
    {
        proof {
            lemma_skip_step(line@, k as int);
        }
        k = k + 1;
    }
    let mut body = String::new();
    let ghost rest = line@.skip(k as int);
    assert(skip_separators(line@) == rest);
    let mut m: usize = k;
    while m < n
        invariant
            n == line@.len(),
            k <= m <= n,
            rest == line@.skip(k as int),
            body@ == rest.take(m - k),
        decreases n - m,
    {
        body.push(line.get_char(m));
        m = m + 1;
        assert(body@ =~= rest.take(m - k));
    }
    assert(rest.take(n - k) =~= rest);
    Some(body)
}

/// The command an action runs for a click with modifiers `mods`, if any.
pub open spec fn action_command(a: Action, mods: Seq<I3Modifier>) -> Option<Seq<char>> {
    match a {
        Action::Simple(c) => Some(c@),
        Action::WithOptions { command, modifiers } => if modifiers@.to_set() == mods.to_set() {
            Some(command@)
        } else {
            None
        },
    }
}

/// The commands that a list of actions runs, in order.
pub open spec fn commands_of(actions: Seq<Action>, mods: Seq<I3Modifier>) -> Seq<Seq<char>>
    decreases actions.len(),
{
    if actions.len() == 0 {
        Seq::empty()
    } else {
        let rest = commands_of(actions.drop_last(), mods);
        match action_command(actions.last(), mods) {
            Some(c) => rest.push(c),
            None => rest,
        }
    }
}

/// The actions held by a wrapper.
pub open spec fn wrapped_actions(w: ActionWrapper) -> Seq<Action> {
    match w {
        ActionWrapper::Single(a) => seq![a],
        ActionWrapper::Many(v) => v@,
    }
}

/// The commands to run for a click, given the actions configured for its
/// button; none runs if there are none.
pub fn handle_actions(actions: Option<&ActionWrapper>, click: &I3ClickEvent) -> (r: Vec<String>)
    ensures
        match actions {
            None => r@.len() == 0,
            Some(w) => r@.map_values(|s: String| s@) == commands_of(wrapped_actions(*w), click.modifiers@),
        },
{
    let mut out: Vec<String> = Vec::new();
    match actions {
        None => out,
        Some(ActionWrapper::Single(a)) => {
            proof {
                assert(seq![*a].drop_last() =~= Seq::<Action>::empty());
                assert(commands_of(Seq::<Action>::empty(), click.modifiers@) == Seq::<Seq<char>>::empty());
            }
            let c = command_of(a, click);
            match c {
                Some(c) => out.push(c),
                None => {},
            }
            assert(out@.map_values(|s: String| s@) =~= commands_of(seq![*a], click.modifiers@));
            out
        },
        Some(ActionWrapper::Many(v)) => {
            let mut i: usize = 0;
            while i < v.len()
                invariant
                    i <= v@.len(),
                    out@.map_values(|s: String| s@) == commands_of(v@.take(i as int), click.modifiers@),
                decreases v@.len() - i,
            {
                proof {
                    assert(v@.take(i + 1).drop_last() =~= v@.take(i as int));
                }
                let c = command_of(&v[i], click);
                match c {
                    Some(c) => out.push(c),
                    None => {},
                }
                i = i + 1;
                assert(out@.map_values(|s: String| s@) =~= commands_of(v@.take(i as int), click.modifiers@));
            }
            assert(v@.take(i as int) =~= v@);
            out
        },
    }
}

/// The command an action runs for `click`, if any.
fn command_of(a: &Action, click: &I3ClickEvent) -> (r: Option<String>)
    ensures
        match action_command(*a, click.modifiers@) {
            Some(c) => (r matches Some(s) && s@ == c),
            None => r is None,
        },
{
    match a {
        Action::Simple(c) => Some(c.clone()),
        Action::WithOptions { command, modifiers } => {
            if same_modifiers(modifiers, &click.modifiers) {
                Some(command.clone())
            } else {
                None
            }
        },
    }
}

/// The actions configured for a button.
pub open spec fn button_actions(actions: Actions, b: I3Button) -> Option<ActionWrapper> {
    match b {
        I3Button::Left => actions.left_click,
        I3Button::Middle => actions.middle_click,
        I3Button::Right => actions.right_click,
        _ => None,
    }
}

/// A click consults the actions configured for its own button: the left
/// button's for a left click, the middle button's for a middle click, the
/// right button's for a right click, and none for any other button.
pub proof fn lemma_click_button_actions(a: Actions)
    ensures
        button_actions(a, I3Button::Left) == a.left_click,
        button_actions(a, I3Button::Middle) == a.middle_click,
        button_actions(a, I3Button::Right) == a.right_click,
        forall|b: I3Button| b != I3Button::Left && b != I3Button::Middle && b != I3Button::Right
            ==> button_actions(a, b) is None,
{
}

/// A single plain command runs whatever the modifiers; a list runs its
/// commands in order.
pub proof fn lemma_single_command(c: Seq<char>, cmd: String, mods: Seq<I3Modifier>)
    requires
        cmd@ == c,
    ensures
        commands_of(wrapped_actions(ActionWrapper::Single(Action::Simple(cmd))), mods) == seq![c],
{
    assert(seq![Action::Simple(cmd)].drop_last() =~= Seq::<Action>::empty());
    assert(commands_of(Seq::<Action>::empty(), mods) == Seq::<Seq<char>>::empty());
    assert(Seq::<Seq<char>>::empty().push(c) =~= seq![c]);
}

/// Where a click goes.
#[derive(Debug, Clone)]
pub enum ClickRoute {
    /// The click names no item it can be routed to.
    Ignore,
    /// Run these configured commands for the item, and do not forward it.
    RunActions(usize, Vec<String>),
    /// Forward the click to the item.
    Forward(usize),
}

/// The item a click is for: its `instance` holds the item's index.
pub open spec fn click_target(click: I3ClickEvent) -> Option<nat> {
    match click.instance {
        None => None,
        Some(inst) => match parse_usize_spec(inst@) {
            Ok(v) => Some(v),
            Err(_) => None,
        },
    }
}

/// Decides what to do with a click: ignore it if it names no item, run the
/// item's configured commands for its button if any apply, else forward it
/// to the item.
pub fn route_click(click: &I3ClickEvent, items: &Vec<Item>) -> (r: ClickRoute)
    requires
        click_target(*click) matches Some(i) ==> i < items@.len(),
    ensures
        match click_target(*click) {
            None => r is Ignore,
            Some(i) => {
                let cmds = match items@[i as int].common.actions {
                    Some(a) => match button_actions(a, click.button) {
                        Some(w) => commands_of(wrapped_actions(w), click.modifiers@),
                        None => Seq::empty(),
                    },
                    None => Seq::empty(),
                };
                if cmds.len() > 0 {
                    (r matches ClickRoute::RunActions(j, v) && j == i && v@.map_values(|s: String| s@) == cmds)
                } else {
                    r == ClickRoute::Forward(i as usize)
                }
            },
        },
        click_target(*click) matches Some(i) ==> match items@[i as int].common.actions {
            None => r == ClickRoute::Forward(i as usize),
            Some(a) => {
                let own = if click.button == I3Button::Left {
                    a.left_click
                } else if click.button == I3Button::Middle {
                    a.middle_click
                } else if click.button == I3Button::Right {
                    a.right_click
                } else {
                    None
                };
                &&& own is None ==> r == ClickRoute::Forward(i as usize)
                &&& own matches Some(ActionWrapper::Single(Action::Simple(cmd))) ==> (r matches ClickRoute::RunActions(
                    j,
                    v,
                ) && j == i && v@.len() == 1 && v@[0]@ == cmd@)
            },
        },
{
    let idx = match &click.instance {
        None => return ClickRoute::Ignore,
        Some(inst) => match parse_usize(inst.as_str()) {
            Ok(i) => i,
            Err(_) => return ClickRoute::Ignore,
        },
    };
    match &items[idx].common.actions {
        Some(actions) => {
            let w = match click.button {
                I3Button::Left => actions.left_click.as_ref(),
                I3Button::Middle => actions.middle_click.as_ref(),
                I3Button::Right => actions.right_click.as_ref(),
                _ => None,
            };
            let cmds = handle_actions(w, click);
            proof {
                lemma_click_button_actions(*actions);
                if let Some(ActionWrapper::Single(Action::Simple(cmd))) = button_actions(*actions, click.button) {
                    lemma_single_command(cmd@, cmd, click.modifiers@);
                    assert(cmds@.map_values(|s: String| s@) == seq![cmd@]);
                    assert(cmds@.map_values(|s: String| s@).len() == 1);
                    assert(cmds@.map_values(|s: String| s@)[0] == cmds@[0]@);
                }
            }
            if cmds.len() > 0 {
                ClickRoute::RunActions(idx, cmds)
            } else {
                ClickRoute::Forward(idx)
            }
        },
        None => ClickRoute::Forward(idx),
    }
}

} // verus!
