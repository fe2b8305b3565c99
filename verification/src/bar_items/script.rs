//! The script item: shows the output of a shell command.

use vstd::prelude::*;

use crate::bar_items::block;
use crate::i3::bar_item::{I3Item, I3Markup};
use crate::i3::click::{button_code, I3Button, I3ClickEvent, I3Modifier};
use crate::i3::ipc::{trim, trim_str};
use crate::text::{decimal, str_eq, u64_to_decimal};
use crate::theme::Theme;

verus! {

/// How the script's output is read.
#[derive(Debug, Clone, Copy, PartialEq, Eq, Structural)]
pub enum ScriptFormat {
    /// The output is the text of the block.
    Simple,
    /// The output is a block as JSON.
    Json,
}

/// The script item.
#[derive(Debug, Clone)]
pub struct Script {
    /// The command, run by `sh -c`.
    pub command: String,
    pub output: ScriptFormat,
    pub markup: I3Markup,
}

/// The variables of an environment: later entries win over earlier ones.
pub open spec fn env_view(s: Seq<(String, String)>) -> Map<Seq<char>, Seq<char>>
    decreases s.len(),
{
    if s.len() == 0 {
        Map::empty()
    } else {
        env_view(s.drop_last()).insert(s.last().0@, s.last().1@)
    }
}

/// The environment that the script runs in, built from the events it got.
#[derive(Debug, Clone)]
pub struct ScriptEnv {
    pub vars: Vec<(String, String)>,
}

/// What the script item was told.
#[derive(Debug, Clone)]
pub enum ScriptEvent {
    Signal,
    Click(I3ClickEvent),
    Other,
}

/// The JSON text of a modifier.
pub open spec fn modifier_json(m: I3Modifier) -> Seq<char> {
    "\""@ + match m {
        I3Modifier::Mod1 => "Mod1"@,
        I3Modifier::Mod2 => "Mod2"@,
        I3Modifier::Mod3 => "Mod3"@,
        I3Modifier::Mod4 => "Mod4"@,
        I3Modifier::Mod5 => "Mod5"@,
        I3Modifier::Shift => "Shift"@,
        I3Modifier::Control => "Control"@,
    } + "\""@
}

/// The JSON texts of modifiers, joined by commas.
pub open spec fn modifiers_json(ms: Seq<I3Modifier>) -> Seq<char>
    decreases ms.len(),
{
    if ms.len() == 0 {
        Seq::empty()
    } else if ms.len() == 1 {
        modifier_json(ms[0])
    } else {
        modifiers_json(ms.drop_last()) + ","@ + modifier_json(ms.last())
    }
}

/// The number of a button in the protocol (`Unknown` is 8).
pub open spec fn button_number(b: I3Button) -> nat {
    match button_code(b) {
        Some(c) => c as nat,
        None => 8,
    }
}

/// The variables after a click.
pub open spec fn click_env(v: Map<Seq<char>, Seq<char>>, c: I3ClickEvent) -> Map<Seq<char>, Seq<char>> {
    let v1 = v.remove("I3_SIGNAL"@);
    let v2 = match c.name {
        Some(n) => v1.insert("I3_NAME"@, n@),
        None => v1,
    };
    let v3 = v2.insert("I3_MODIFIERS"@, modifiers_json(c.modifiers@)).insert(
        "I3_BUTTON"@,
        decimal(button_number(c.button)),
    ).insert("I3_X"@, decimal(c.x as nat)).insert("I3_Y"@, decimal(c.y as nat)).insert(
        "I3_RELATIVE_X"@,
        decimal(c.relative_x as nat),
    ).insert("I3_RELATIVE_Y"@, decimal(c.relative_y as nat));
    let v4 = match c.output_x {
        Some(x) => v3.insert("I3_OUTPUT_X"@, decimal(x as nat)),
        None => v3,
    };
    let v5 = match c.output_y {
        Some(y) => v4.insert("I3_OUTPUT_Y"@, decimal(y as nat)),
        None => v4,
    };
    v5.insert("I3_WIDTH"@, decimal(c.width as nat)).insert("I3_HEIGHT"@, decimal(c.height as nat))
}

/// The variables after an event.
pub open spec fn event_env(v: Map<Seq<char>, Seq<char>>, e: ScriptEvent) -> Map<Seq<char>, Seq<char>> {
    match e {
        ScriptEvent::Signal => v.insert("I3_SIGNAL"@, "true"@),
        ScriptEvent::Click(c) => click_env(v, c),
        ScriptEvent::Other => v,
    }
}

/// A click always clears the signal flag, and a signal always sets it: the
/// script can tell which of the two last woke it.
pub proof fn lemma_signal_flag(v: Map<Seq<char>, Seq<char>>, c: I3ClickEvent)
    ensures
        !event_env(v, ScriptEvent::Click(c)).dom().contains("I3_SIGNAL"@),
        event_env(v, ScriptEvent::Signal)["I3_SIGNAL"@] == "true"@,
{
    reveal_strlit("I3_SIGNAL");
    reveal_strlit("I3_NAME");
    reveal_strlit("I3_MODIFIERS");
    reveal_strlit("I3_BUTTON");
    reveal_strlit("I3_X");
    reveal_strlit("I3_Y");
    reveal_strlit("I3_RELATIVE_X");
    reveal_strlit("I3_RELATIVE_Y");
    reveal_strlit("I3_OUTPUT_X");
    reveal_strlit("I3_OUTPUT_Y");
    reveal_strlit("I3_WIDTH");
    reveal_strlit("I3_HEIGHT");
    assert("I3_NAME"@[3] != "I3_SIGNAL"@[3]);
    assert("I3_MODIFIERS"@[3] != "I3_SIGNAL"@[3]);
    assert("I3_BUTTON"@[3] != "I3_SIGNAL"@[3]);
    assert("I3_X"@.len() != "I3_SIGNAL"@.len());
    assert("I3_Y"@.len() != "I3_SIGNAL"@.len());
    assert("I3_RELATIVE_X"@.len() != "I3_SIGNAL"@.len());
    assert("I3_RELATIVE_Y"@.len() != "I3_SIGNAL"@.len());
    assert("I3_OUTPUT_X"@[3] != "I3_SIGNAL"@[3]);
    assert("I3_OUTPUT_Y"@[3] != "I3_SIGNAL"@[3]);
    assert("I3_WIDTH"@[3] != "I3_SIGNAL"@[3]);
    assert("I3_HEIGHT"@[3] != "I3_SIGNAL"@[3]);
}

/// After a click, each variable holds the decimal text of its own field of
/// the click: the button's number, the position on the screen and within the
/// block, the block's size, and the position of the output where i3bar gives
/// it; the modifiers are listed as JSON text and the block's name is kept.
pub proof fn lemma_click_env_fields(v: Map<Seq<char>, Seq<char>>, c: I3ClickEvent)
    ensures
        ({
            let e = event_env(v, ScriptEvent::Click(c));
            &&& e["I3_BUTTON"@] == decimal(button_number(c.button))
            &&& e["I3_X"@] == decimal(c.x as nat)
            &&& e["I3_Y"@] == decimal(c.y as nat)
            &&& e["I3_RELATIVE_X"@] == decimal(c.relative_x as nat)
            &&& e["I3_RELATIVE_Y"@] == decimal(c.relative_y as nat)
            &&& e["I3_WIDTH"@] == decimal(c.width as nat)
            &&& e["I3_HEIGHT"@] == decimal(c.height as nat)
            &&& e["I3_MODIFIERS"@] == modifiers_json(c.modifiers@)
            &&& (c.output_x matches Some(x) ==> e["I3_OUTPUT_X"@] == decimal(x as nat))
            &&& (c.output_y matches Some(y) ==> e["I3_OUTPUT_Y"@] == decimal(y as nat))
            &&& (c.name matches Some(n) ==> e["I3_NAME"@] == n@)
            &&& e.dom().contains("I3_X"@) && e.dom().contains("I3_Y"@)
        }),
{
    reveal_strlit("I3_SIGNAL");
    reveal_strlit("I3_NAME");
    reveal_strlit("I3_MODIFIERS");
    reveal_strlit("I3_BUTTON");
    reveal_strlit("I3_X");
    reveal_strlit("I3_Y");
    reveal_strlit("I3_RELATIVE_X");
    reveal_strlit("I3_RELATIVE_Y");
    reveal_strlit("I3_OUTPUT_X");
    reveal_strlit("I3_OUTPUT_Y");
    reveal_strlit("I3_WIDTH");
    reveal_strlit("I3_HEIGHT");
    assert("I3_NAME"@.len() != "I3_MODIFIERS"@.len());
    assert("I3_NAME"@.len() != "I3_BUTTON"@.len());
    assert("I3_NAME"@.len() != "I3_X"@.len());
    assert("I3_NAME"@.len() != "I3_Y"@.len());
    assert("I3_NAME"@.len() != "I3_RELATIVE_X"@.len());
    assert("I3_NAME"@.len() != "I3_RELATIVE_Y"@.len());
    assert("I3_NAME"@.len() != "I3_OUTPUT_X"@.len());
    assert("I3_NAME"@.len() != "I3_OUTPUT_Y"@.len());
    assert("I3_NAME"@.len() != "I3_WIDTH"@.len());
    assert("I3_NAME"@.len() != "I3_HEIGHT"@.len());
    assert("I3_MODIFIERS"@.len() != "I3_BUTTON"@.len());
    assert("I3_MODIFIERS"@.len() != "I3_X"@.len());
    assert("I3_MODIFIERS"@.len() != "I3_Y"@.len());
    assert("I3_MODIFIERS"@.len() != "I3_RELATIVE_X"@.len());
    assert("I3_MODIFIERS"@.len() != "I3_RELATIVE_Y"@.len());
    assert("I3_MODIFIERS"@.len() != "I3_OUTPUT_X"@.len());
    assert("I3_MODIFIERS"@.len() != "I3_OUTPUT_Y"@.len());
    assert("I3_MODIFIERS"@.len() != "I3_WIDTH"@.len());
    assert("I3_MODIFIERS"@.len() != "I3_HEIGHT"@.len());
    assert("I3_BUTTON"@.len() != "I3_X"@.len());
    assert("I3_BUTTON"@.len() != "I3_Y"@.len());
    assert("I3_BUTTON"@.len() != "I3_RELATIVE_X"@.len());
    assert("I3_BUTTON"@.len() != "I3_RELATIVE_Y"@.len());
    assert("I3_BUTTON"@.len() != "I3_OUTPUT_X"@.len());
    assert("I3_BUTTON"@.len() != "I3_OUTPUT_Y"@.len());
    assert("I3_BUTTON"@.len() != "I3_WIDTH"@.len());
    assert("I3_BUTTON"@[3] != "I3_HEIGHT"@[3]);
    assert("I3_X"@[3] != "I3_Y"@[3]);
    assert("I3_X"@.len() != "I3_RELATIVE_X"@.len());
    assert("I3_X"@.len() != "I3_RELATIVE_Y"@.len());
    assert("I3_X"@.len() != "I3_OUTPUT_X"@.len());
    assert("I3_X"@.len() != "I3_OUTPUT_Y"@.len());
    assert("I3_X"@.len() != "I3_WIDTH"@.len());
    assert("I3_X"@.len() != "I3_HEIGHT"@.len());
    assert("I3_Y"@.len() != "I3_RELATIVE_X"@.len());
    assert("I3_Y"@.len() != "I3_RELATIVE_Y"@.len());
    assert("I3_Y"@.len() != "I3_OUTPUT_X"@.len());
    assert("I3_Y"@.len() != "I3_OUTPUT_Y"@.len());
    assert("I3_Y"@.len() != "I3_WIDTH"@.len());
    assert("I3_Y"@.len() != "I3_HEIGHT"@.len());
    assert("I3_RELATIVE_X"@[12] != "I3_RELATIVE_Y"@[12]);
    assert("I3_RELATIVE_X"@.len() != "I3_OUTPUT_X"@.len());
    assert("I3_RELATIVE_X"@.len() != "I3_OUTPUT_Y"@.len());
    assert("I3_RELATIVE_X"@.len() != "I3_WIDTH"@.len());
    assert("I3_RELATIVE_X"@.len() != "I3_HEIGHT"@.len());
    assert("I3_RELATIVE_Y"@.len() != "I3_OUTPUT_X"@.len());
    assert("I3_RELATIVE_Y"@.len() != "I3_OUTPUT_Y"@.len());
    assert("I3_RELATIVE_Y"@.len() != "I3_WIDTH"@.len());
    assert("I3_RELATIVE_Y"@.len() != "I3_HEIGHT"@.len());
    assert("I3_OUTPUT_X"@[10] != "I3_OUTPUT_Y"@[10]);
    assert("I3_OUTPUT_X"@.len() != "I3_WIDTH"@.len());
    assert("I3_OUTPUT_X"@.len() != "I3_HEIGHT"@.len());
    assert("I3_OUTPUT_Y"@.len() != "I3_WIDTH"@.len());
    assert("I3_OUTPUT_Y"@.len() != "I3_HEIGHT"@.len());
    assert("I3_WIDTH"@.len() != "I3_HEIGHT"@.len());
}

fn modifier_json_text(m: I3Modifier) -> (r: String)
    ensures
        r@ == modifier_json(m),
{
    let mut r = String::from_str("\"");
    match m {
        I3Modifier::Mod1 => r.append("Mod1"),
        I3Modifier::Mod2 => r.append("Mod2"),
        I3Modifier::Mod3 => r.append("Mod3"),
        I3Modifier::Mod4 => r.append("Mod4"),
        I3Modifier::Mod5 => r.append("Mod5"),
        I3Modifier::Shift => r.append("Shift"),
        I3Modifier::Control => r.append("Control"),
    }
    r.append("\"");
    r
}

/// The JSON texts of modifiers, joined by commas.
pub fn join_modifiers(ms: &Vec<I3Modifier>) -> (r: String)
    ensures
        r@ == modifiers_json(ms@),
{
    let mut r = String::new();
    let mut i: usize = 0;
    while i < ms.len()
        invariant
            i <= ms@.len(),
            r@ == modifiers_json(ms@.take(i as int)),
        decreases ms@.len() - i,
    {
        if i > 0 {
            r.append(",");
        }
        let m = modifier_json_text(ms[i]);
        r.append(m.as_str());
        proof {
            let t = ms@.take(i + 1);
            assert(t.drop_last() =~= ms@.take(i as int));
            if i == 0 {
                assert(ms@.take(0) =~= Seq::<I3Modifier>::empty());
            }
        }
        i = i + 1;
    }
    assert(ms@.take(i as int) =~= ms@);
    r
}

impl ScriptEnv {
    /// The variables.
    pub open spec fn view(&self) -> Map<Seq<char>, Seq<char>> {
        env_view(self.vars@)
    }

    /// An empty environment.
    pub fn new() -> (r: ScriptEnv)
        ensures
            r.view() == Map::<Seq<char>, Seq<char>>::empty(),
    {
        ScriptEnv { vars: Vec::new() }
    }

    /// Sets a variable.
    pub fn insert(&mut self, key: &str, value: String)
        ensures
            final(self).view() == old(self).view().insert(key@, value@),
    {
        self.vars.push((String::from_str(key), value));
        proof {
            assert(self.vars@.drop_last() =~= old(self).vars@);
        }
    }

    /// Unsets a variable.
    pub fn remove(&mut self, key: &str)
        ensures
            final(self).view() == old(self).view().remove(key@),
    {
        let mut kept: Vec<(String, String)> = Vec::new();
        let mut i: usize = 0;
        while i < self.vars.len()
            invariant
                i <= self.vars@.len(),
                env_view(kept@) == env_view(self.vars@.take(i as int)).remove(key@),
            decreases self.vars@.len() - i,
        {
            proof {
                assert(self.vars@.take(i + 1).drop_last() =~= self.vars@.take(i as int));
            }
            if !str_eq(self.vars[i].0.as_str(), key) {
                let k = self.vars[i].0.clone();
                let v = self.vars[i].1.clone();
                let ghost prev = kept@;
                kept.push((k, v));
                proof {
                    assert(kept@.drop_last() =~= prev);
                    assert(self.vars@.take(i + 1).last() == self.vars@[i as int]);
                    assert(env_view(kept@) =~= env_view(self.vars@.take(i + 1)).remove(key@));
                }
            } else {
                assert(env_view(kept@) =~= env_view(self.vars@.take(i + 1)).remove(key@));
            }
            i = i + 1;
        }
        assert(self.vars@.take(i as int) =~= self.vars@);
        self.vars = kept;
    }

    /// Records an event in the environment: a signal sets `I3_SIGNAL`; a
    /// click unsets it and sets the click's properties.
    pub fn update(&mut self, event: &ScriptEvent)
        ensures
            final(self).view() == event_env(old(self).view(), *event),
            event matches ScriptEvent::Click(c) ==> final(self).view()["I3_X"@] == decimal(c.x as nat)
                && final(self).view()["I3_Y"@] == decimal(c.y as nat)
                && final(self).view()["I3_RELATIVE_X"@] == decimal(c.relative_x as nat)
                && final(self).view()["I3_RELATIVE_Y"@] == decimal(c.relative_y as nat)
                && final(self).view()["I3_WIDTH"@] == decimal(c.width as nat)
                && final(self).view()["I3_HEIGHT"@] == decimal(c.height as nat),
    {
        proof {
            if event is Click {
                lemma_click_env_fields(old(self).view(), event->Click_0);
            }
        }
        match event {
            ScriptEvent::Signal => self.insert("I3_SIGNAL", String::from_str("true")),
            ScriptEvent::Click(c) => {
                self.remove("I3_SIGNAL");
                match &c.name {
                    Some(n) => self.insert("I3_NAME", n.clone()),
                    None => {},
                }
                self.insert("I3_MODIFIERS", join_modifiers(&c.modifiers));
                let b: u64 = match c.button.code() {
                    Some(code) => code as u64,
                    None => 8,
                };
                self.insert("I3_BUTTON", u64_to_decimal(b));
                self.insert("I3_X", u64_to_decimal(c.x as u64));
                self.insert("I3_Y", u64_to_decimal(c.y as u64));
                self.insert("I3_RELATIVE_X", u64_to_decimal(c.relative_x as u64));
                self.insert("I3_RELATIVE_Y", u64_to_decimal(c.relative_y as u64));
                match c.output_x {
                    Some(x) => self.insert("I3_OUTPUT_X", u64_to_decimal(x as u64)),
                    None => {},
                }
                match c.output_y {
                    Some(y) => self.insert("I3_OUTPUT_Y", u64_to_decimal(y as u64)),
                    None => {},
                }
                self.insert("I3_WIDTH", u64_to_decimal(c.width as u64));
                self.insert("I3_HEIGHT", u64_to_decimal(c.height as u64));
            },
            ScriptEvent::Other => {},
        }
    }
}

impl Script {
    /// The script's output without white space at either end.
    pub fn output_text(stdout: &str) -> (r: String)
        ensures
            r@ == trim(stdout@),
    {
        trim_str(stdout)
    }

    /// The block for the script's (trimmed) output `text`; for JSON output,
    /// `parsed` is the block read from it, if it could be read, and a red
    /// `ERROR` block stands in otherwise. The configured markup applies.
    pub fn item(&self, theme: &Theme, text: &str, parsed: Option<I3Item>) -> (r: I3Item)
        ensures
            match self.output {
                ScriptFormat::Simple => block(r, text@, None, None, None, None, Some(self.markup)),
                ScriptFormat::Json => match parsed {
                    Some(p) => r == (I3Item { markup: Some(self.markup), ..p }),
                    None => block(r, "ERROR"@, None, None, Some(theme.red), None, Some(self.markup)),
                },
            },
    {
        let item = match self.output {
            ScriptFormat::Simple => I3Item::new(text),
            ScriptFormat::Json => match parsed {
                Some(p) => p,
                None => {
                    proof {
                        reveal_strlit("ERROR");
                    }
                    I3Item::new("ERROR").background_color(theme.red)
                },
            },
        };
        item.markup(self.markup)
    }
}

} // verus!
