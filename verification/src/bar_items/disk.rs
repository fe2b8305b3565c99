//! The disk item.

use std::time::Duration;

use vstd::prelude::*;

use crate::bar_items::block_with_data;
use crate::bytes::{byte_size_text, bytesize_text};
use crate::color::HexColor;
use crate::i3::bar_item::{data_key, data_view, I3Item, I3Markup, ItemData};
use crate::text::str_eq;
use crate::theme::Theme;

verus! {

/// A name to show for a mount point.
#[derive(Debug, Clone)]
pub struct DiskAlias {
    pub path: String,
    pub name: String,
}

/// The free space of one mounted disk.
#[derive(Debug, Clone)]
pub struct DiskStats {
    pub alias: Option<String>,
    pub mount_point: String,
    pub available_bytes: u64,
    pub total_bytes: u64,
}

/// The colour for `pct` percent (truncated) of a disk being free: red up to
/// 10, orange up to 20, yellow up to 30.
pub open spec fn free_color(theme: Theme, pct: u32) -> Option<HexColor> {
    if pct <= 10 {
        Some(theme.red)
    } else if pct <= 20 {
        Some(theme.orange)
    } else if pct <= 30 {
        Some(theme.yellow)
    } else {
        None
    }
}

/// The name shown for a disk: its alias, else its mount point.
pub open spec fn disk_name(d: DiskStats) -> Seq<char> {
    match d.alias {
        Some(a) => a@,
        None => d.mount_point@,
    }
}

/// The text shown for a disk.
pub open spec fn disk_text(d: DiskStats) -> Seq<char> {
    seq!['\u{f02ca}', ' '] + disk_name(d) + " "@ + bytesize_text(d.available_bytes, true)
}

impl DiskStats {
    pub fn new(mount_point: String, available_bytes: u64, total_bytes: u64, alias: Option<String>) -> (r: DiskStats)
        ensures
            r == (DiskStats { alias, mount_point, available_bytes, total_bytes }),
    {
        DiskStats { alias, mount_point, available_bytes, total_bytes }
    }

    /// The colour for `pct` percent (truncated) of the disk being free.
    pub fn get_color(&self, theme: &Theme, pct: u32) -> (r: Option<HexColor>)
        ensures
            r == free_color(*theme, pct),
    {
        if pct <= 10 {
            Some(theme.red)
        } else if pct <= 20 {
            Some(theme.orange)
        } else if pct <= 30 {
            Some(theme.yellow)
        } else {
            None
        }
    }

    /// The long text and the name of the disk.
    pub fn format(&self, _theme: &Theme) -> (r: (String, String))
        ensures
            r.0@ == disk_text(*self),
            r.1@ == disk_name(*self),
    {
        let name = match &self.alias {
            Some(a) => a.clone(),
            None => self.mount_point.clone(),
        };
        let mut full = String::new();
        full.push('\u{f02ca}');
        full.push(' ');
        full.append(name.as_str());
        full.append(" ");
        let b = byte_size_text(self.available_bytes, true);
        full.append(b.as_str());
        (full, name)
    }

    /// The block for this disk, `pct` percent (truncated) of it free, with
    /// the page marker `pages` after the text.
    pub fn item(&self, theme: &Theme, pct: u32, pages: &str) -> (r: I3Item)
        ensures
            block_with_data(r, disk_text(*self) + pages@, Some(disk_name(*self)), free_color(*theme, pct), None,
                None, Some(I3Markup::Pango), map![data_key("mount_point"@) => ItemData::Text(self.mount_point)]),
    {
        let (full, short) = self.format(theme);
        let mut full = full;
        full.append(pages);
        let item = I3Item::new(full.as_str()).short_text(short.as_str()).markup(I3Markup::Pango).with_data(
            "mount_point",
            ItemData::Text(self.mount_point.clone()),
        );
        proof {
            assert(data_view(item.additional_data@) =~= map![data_key("mount_point"@) => ItemData::Text(self.mount_point)]);
        }
        match self.get_color(theme, pct) {
            Some(c) => item.color(c),
            None => item,
        }
    }
}

/// The disk item's settings: how often it refreshes, which mount points it
/// shows (every one where `mounts` is empty) and names for some of them.
#[derive(Debug)]
pub struct Disk {
    pub interval: Duration,
    pub mounts: Vec<String>,
    pub aliases: Vec<DiskAlias>,
}

/// Whether a disk mounted at `mp` is shown: every one where no mount point
/// is listed, else those listed.
pub open spec fn shows_mount(mounts: Seq<String>, mp: Seq<char>) -> bool {
    mounts.len() == 0 || exists|i: int| 0 <= i < mounts.len() && #[trigger] mounts[i]@ == mp
}

/// The name of the first alias whose path is `mp`.
pub open spec fn alias_of(aliases: Seq<DiskAlias>, mp: Seq<char>) -> Option<String>
    decreases aliases.len(),
{
    if aliases.len() == 0 {
        None
    } else if aliases[0].path@ == mp {
        Some(aliases[0].name)
    } else {
        alias_of(aliases.drop_first(), mp)
    }
}

/// The disks of `found` that are shown, in their order, each under its alias.
pub open spec fn shown_stats(mounts: Seq<String>, aliases: Seq<DiskAlias>, found: Seq<DiskStats>) -> Seq<DiskStats>
    decreases found.len(),
{
    if found.len() == 0 {
        Seq::empty()
    } else {
        let rest = shown_stats(mounts, aliases, found.drop_last());
        let d = found.last();
        if shows_mount(mounts, d.mount_point@) {
            rest.push(
                DiskStats {
                    alias: alias_of(aliases, d.mount_point@),
                    mount_point: d.mount_point,
                    available_bytes: d.available_bytes,
                    total_bytes: d.total_bytes,
                },
            )
        } else {
            rest
        }
    }
}

impl Disk {
    /// Whether the disk mounted at `mount_point` is shown.
    pub fn shows(&self, mount_point: &str) -> (r: bool)
        ensures
            r == shows_mount(self.mounts@, mount_point@),
    {
        if self.mounts.len() == 0 {
            return true;
        }
        let mut i: usize = 0;
        while i < self.mounts.len()
            invariant
                i <= self.mounts.len(),
                forall|k: int| 0 <= k < i ==> #[trigger] self.mounts@[k]@ != mount_point@,
            decreases self.mounts.len() - i,
        {
            if str_eq(self.mounts[i].as_str(), mount_point) {
                return true;
            }
            i += 1;
        }
        false
    }

    /// The name given to the disk mounted at `mount_point`, if any.
    pub fn alias_for(&self, mount_point: &str) -> (r: Option<String>)
        ensures
            r == alias_of(self.aliases@, mount_point@),
    {
        let mut i: usize = 0;
        assert(self.aliases@.skip(0) =~= self.aliases@);
        while i < self.aliases.len()
            invariant
                i <= self.aliases.len(),
                alias_of(self.aliases@, mount_point@) == alias_of(self.aliases@.skip(i as int), mount_point@),
            decreases self.aliases.len() - i,
        {
            assert(self.aliases@.skip(i as int).drop_first() =~= self.aliases@.skip(i + 1));
            if str_eq(self.aliases[i].path.as_str(), mount_point) {
                return Some(self.aliases[i].name.clone());
            }
            i += 1;
        }
        None
    }

    /// The disks of `found` that this item shows, in their order, each
    /// under its alias.
    pub fn stats(&self, found: &Vec<DiskStats>) -> (r: Vec<DiskStats>)
        ensures
            r@ == shown_stats(self.mounts@, self.aliases@, found@),
    {
        let mut out: Vec<DiskStats> = Vec::new();
        let mut i: usize = 0;
        while i < found.len()
            invariant
                i <= found.len(),
                out@ == shown_stats(self.mounts@, self.aliases@, found@.take(i as int)),
            decreases found.len() - i,
        {
            let d = &found[i];
            assert(found@.take(i + 1).drop_last() =~= found@.take(i as int));
            if self.shows(d.mount_point.as_str()) {
                let alias = self.alias_for(d.mount_point.as_str());
                out.push(DiskStats::new(d.mount_point.clone(), d.available_bytes, d.total_bytes, alias));
            }
            i += 1;
        }
        assert(found@.take(found.len() as int) =~= found@);
        out
    }
}

} // verus!
