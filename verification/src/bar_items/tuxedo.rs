//! The Tuxedo Control Center profile item.

use vstd::prelude::*;

use crate::bar_items::block;
use crate::i3::bar_item::{I3Item, I3Markup};
use crate::text::str_eq;
use crate::theme::Theme;

verus! {

/// A power profile of the control center.
#[derive(Debug, Clone)]
pub struct Profile {
    pub active: bool,
    pub name: String,
}

/// The profiles named `names`, the one named `active` marked active.
pub fn profiles_from(names: &Vec<String>, active: &str) -> (r: Vec<Profile>)
    ensures
        r@.len() == names@.len(),
        forall|i: int| 0 <= i < r@.len() ==> (#[trigger] r@[i]).name@ == names@[i]@ && r@[i].active == (names@[i]@
            == active@),
{
    let mut r: Vec<Profile> = Vec::new();
    let mut i: usize = 0;
    while i < names.len()
        invariant
            i <= names@.len(),
            r@.len() == i,
            forall|k: int| 0 <= k < i ==> (#[trigger] r@[k]).name@ == names@[k]@ && r@[k].active == (names@[k]@
                == active@),
        decreases names@.len() - i,
    {
        let is_active = str_eq(names[i].as_str(), active);
        r.push(Profile { active: is_active, name: names[i].clone() });
        i = i + 1;
    }
    r
}

/// The place of the first active profile, if any.
pub fn active_position(profiles: &Vec<Profile>) -> (r: Option<usize>)
    ensures
        match r {
            Some(i) => i < profiles@.len() && profiles@[i as int].active && forall|k: int| 0 <= k < i ==> !(
            #[trigger] profiles@[k]).active,
            None => forall|k: int| 0 <= k < profiles@.len() ==> !(#[trigger] profiles@[k]).active,
        },
{
    let mut i: usize = 0;
    while i < profiles.len()
        invariant
            i <= profiles@.len(),
            forall|k: int| 0 <= k < i ==> !(#[trigger] profiles@[k]).active,
        decreases profiles@.len() - i,
    {
        if profiles[i].active {
            return Some(i);
        }
        i = i + 1;
    }
    None
}

/// The control center item.
#[derive(Debug, Clone, Copy)]
pub struct Tuxedo {}

impl Tuxedo {
    /// The block for the shown profile, followed by the page marker `pages`.
    pub fn item(theme: &Theme, profile: &Profile, pages: &str) -> (r: I3Item)
        ensures
            block(r, profile.name@ + " "@ + pages@, None, Some(if profile.active { theme.green } else { theme.fg }),
                None, None, Some(I3Markup::Pango)),
    {
        let mut t = profile.name.clone();
        t.append(" ");
        t.append(pages);
        I3Item::new(t.as_str()).color(if profile.active { theme.green } else { theme.fg }).markup(I3Markup::Pango)
    }
}

} // verus!
