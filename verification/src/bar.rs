use vstd::prelude::*;

use crate::arith::{lemma_mod_count_back, lemma_mod_step_up};
use crate::color::{hex_rgb_text, HexColor};
use crate::i3::bar_item::{data_key, data_view, I3Item, I3Markup, ItemData};
use crate::text::{decimal, replace, replace_all, u64_to_decimal};
use crate::theme::{PowerlineColor, Theme};

verus! {

/// Whether a block asks for attention.
pub open spec fn is_urgent(it: I3Item) -> bool {
    it.urgent == Some(true)
}

/// Whether a block is shown (it has text).
pub open spec fn is_visible(it: I3Item) -> bool {
    it.full_text@.len() > 0
}

/// The number of shown blocks in `s`.
pub open spec fn count_visible(s: Seq<I3Item>) -> nat
    decreases s.len(),
{
    if s.len() == 0 {
        0
    } else {
        count_visible(s.drop_last()) + if is_visible(s.last()) { 1nat } else { 0nat }
    }
}

/// The index of the last shown block before position `i`, if any.
pub open spec fn last_visible_before(s: Seq<I3Item>, i: int) -> Option<int>
    decreases i,
{
    if i <= 0 {
        None
    } else if is_visible(s[i - 1]) {
        Some(i - 1)
    } else {
        last_visible_before(s, i - 1)
    }
}

/// The colour adjuster made from `bg` and `fg`: it adds, channel by channel
/// and saturating at 255, the distance between `fg` and `bg` to a colour.
/// This keeps dim text visible on other backgrounds.
pub open spec fn adjusted(bg: HexColor, fg: HexColor, c: HexColor) -> HexColor {
    HexColor {
        r: sat_add(abs_diff(fg.r, bg.r), c.r),
        g: sat_add(abs_diff(fg.g, bg.g), c.g),
        b: sat_add(abs_diff(fg.b, bg.b), c.b),
        a: 255,
    }
}

pub open spec fn abs_diff(x: u8, y: u8) -> u8 {
    if x >= y { (x - y) as u8 } else { (y - x) as u8 }
}

pub open spec fn sat_add(x: u8, y: u8) -> u8 {
    if x + y > 255 { 255 } else { (x + y) as u8 }
}

/// The colour adjuster made from a background and a foreground colour.
#[derive(Debug, Clone, Copy, PartialEq, Eq, Structural)]
pub struct ColorAdjuster {
    pub bg: HexColor,
    pub fg: HexColor,
}

/// Makes the colour adjuster that keeps `fg` (dim text) visible on other
/// backgrounds than `bg`.
pub fn make_color_adjuster(bg: &HexColor, fg: &HexColor) -> (a: ColorAdjuster)
    ensures
        a.bg == *bg,
        a.fg == *fg,
{
    ColorAdjuster { bg: *bg, fg: *fg }
}

fn u8_abs_diff(x: u8, y: u8) -> (r: u8)
    ensures
        r == abs_diff(x, y),
{
    if x >= y { x - y } else { y - x }
}

impl ColorAdjuster {
    /// Adjusts `c`: see [`adjusted`].
    pub fn apply(&self, c: &HexColor) -> (r: HexColor)
        ensures
            r == adjusted(self.bg, self.fg, *c),
    {
        HexColor::rgb(
            u8_abs_diff(self.fg.r, self.bg.r).saturating_add(c.r),
            u8_abs_diff(self.fg.g, self.bg.g).saturating_add(c.g),
            u8_abs_diff(self.fg.b, self.bg.b).saturating_add(c.b),
        )
    }
}

/// Where the powerline colour cycle starts, so the colours stay put from the
/// right-hand end of the bar as blocks appear and disappear.
pub open spec fn pl_start(len: nat, visible: nat) -> int {
    len - (visible as int) % (len as int)
}

/// The colour of the `k`-th shown block's segment.
pub open spec fn this_color(theme: Theme, visible: nat, k: nat) -> PowerlineColor {
    let len = theme.powerline@.len();
    theme.powerline@[(pl_start(len, visible) + k + 1) % (len as int)]
}

/// The colour the `k`-th shown block's separator falls back to, as the
/// background of the block before it.
pub open spec fn prev_color(theme: Theme, visible: nat, k: nat) -> PowerlineColor {
    let len = theme.powerline@.len();
    theme.powerline@[(pl_start(len, visible) + k) % (len as int)]
}

/// The background of a powerline segment.
pub open spec fn seg_bg(theme: Theme, it: I3Item, this: PowerlineColor) -> HexColor {
    if is_urgent(it) {
        theme.urgent_bg
    } else {
        match it.background_color {
            Some(bg) => bg,
            None => this.bg,
        }
    }
}

/// The text colour of a powerline segment.
pub open spec fn seg_color(theme: Theme, it: I3Item, this: PowerlineColor, bg: HexColor) -> HexColor {
    if is_urgent(it) {
        theme.urgent_fg
    } else {
        match it.color {
            Some(c) => if c == theme.dim { adjusted(theme.bg, theme.dim, bg) } else { c },
            None => this.fg,
        }
    }
}

/// The text of a powerline segment: padded with a space on each side, and
/// with the theme's dim colour replaced by its adjusted form.
pub open spec fn seg_text(theme: Theme, it: I3Item, bg: HexColor) -> Seq<char> {
    seq![' '] + replace_all(it.full_text@, hex_rgb_text(theme.dim), hex_rgb_text(adjusted(theme.bg, theme.dim, bg))) + seq![' ']
}

/// The background of the separator before the block at `i`: it blends with
/// the previous shown block, if there is one.
pub open spec fn sep_bg(theme: Theme, s: Seq<I3Item>, i: int, prev: PowerlineColor) -> Option<HexColor> {
    match last_visible_before(s, i) {
        None => None,
        Some(p) => Some(
            if is_urgent(s[p]) {
                theme.urgent_bg
            } else {
                match s[p].background_color {
                    Some(bg) => bg,
                    None => prev.bg,
                }
            },
        ),
    }
}

/// `out` is the separator of a powerline segment for the block at `i`.
pub open spec fn is_separator(out: I3Item, theme: Theme, s: Seq<I3Item>, i: int, bg: HexColor, prev: PowerlineColor) -> bool {
    &&& out.full_text@ == theme.powerline_separator.value@
    &&& out.instance matches Some(inst) && inst@ == decimal(i as nat)
    &&& out.separator == Some(false)
    &&& out.markup == Some(I3Markup::Pango)
    &&& out.separator_block_width_px == Some(0usize)
    &&& out.color == Some(bg)
    &&& out.background_color == sep_bg(theme, s, i, prev)
    &&& data_view(out.additional_data@) == Map::<Seq<char>, ItemData>::empty().insert(data_key("powerline_sep"@), ItemData::Bool(true))
    &&& out.short_text is None
    &&& out.name is None
    &&& out.border_color is None
    &&& out.border_top_px is None
    &&& out.border_right_px is None
    &&& out.border_bottom_px is None
    &&& out.border_left_px is None
    &&& out.min_width is None
    &&& out.align is None
    &&& out.urgent is None
}

/// `out` is the block `it` styled as a powerline segment. i3bar's own urgent
/// styling is turned off, since the segment is styled here; as the plain bar
/// does, the urgent state is kept as the extra value `_urgent` on urgent
/// blocks, so that it can still be read ("we set it as additional data just
/// in case someone wants to use it").
pub open spec fn is_segment(out: I3Item, theme: Theme, it: I3Item, this: PowerlineColor, bg: HexColor) -> bool {
    &&& out.full_text@ == seg_text(theme, it, bg)
    &&& out.separator == Some(false)
    &&& out.separator_block_width_px == Some(0usize)
    &&& out.color == Some(seg_color(theme, it, this, bg))
    &&& out.background_color == Some(bg)
    &&& out.urgent == Some(false)
    &&& if is_urgent(it) {
        data_view(out.additional_data@) == data_view(it.additional_data@).insert(data_key("urgent"@), ItemData::Bool(true))
    } else {
        data_view(out.additional_data@) == data_view(it.additional_data@)
    }
    &&& out.short_text == it.short_text
    &&& out.instance == it.instance
    &&& out.name == it.name
    &&& out.border_color == it.border_color
    &&& out.border_top_px == it.border_top_px
    &&& out.border_right_px == it.border_right_px
    &&& out.border_bottom_px == it.border_bottom_px
    &&& out.border_left_px == it.border_left_px
    &&& out.min_width == it.min_width
    &&& out.align == it.align
    &&& out.markup == it.markup
}

/// The pair of blocks (separator, segment) that the powerline bar shows for
/// the shown block at `i`.
pub open spec fn powerline_pair(out: Seq<I3Item>, theme: Theme, s: Seq<I3Item>, i: int) -> bool {
    let visible = count_visible(s);
    let k = count_visible(s.take(i));
    let this = this_color(theme, visible, k);
    let prev = prev_color(theme, visible, k);
    let bg = seg_bg(theme, s[i], this);
    &&& is_separator(out[2 * k as int], theme, s, i, bg, prev)
    &&& is_segment(out[2 * k as int + 1], theme, s[i], this, bg)
}

/// `out` is the block `it` as the plain (non-powerline) bar shows it: urgent
/// blocks get the theme's urgent colours, and the urgent flag is moved into an
/// extra value so i3bar doesn't style them itself.
pub open spec fn is_plain_block(out: I3Item, theme: Theme, it: I3Item) -> bool {
    &&& out.full_text == it.full_text
    &&& out.short_text == it.short_text
    &&& out.instance == it.instance
    &&& out.name == it.name
    &&& out.border_color == it.border_color
    &&& out.border_top_px == it.border_top_px
    &&& out.border_right_px == it.border_right_px
    &&& out.border_bottom_px == it.border_bottom_px
    &&& out.border_left_px == it.border_left_px
    &&& out.min_width == it.min_width
    &&& out.align == it.align
    &&& out.separator == it.separator
    &&& out.separator_block_width_px == it.separator_block_width_px
    &&& out.markup == it.markup
    &&& if is_urgent(it) {
        &&& out.color == Some(theme.urgent_fg)
        &&& out.background_color == Some(theme.urgent_bg)
        &&& out.urgent == Some(false)
        &&& data_view(out.additional_data@) == data_view(it.additional_data@).insert(data_key("urgent"@), ItemData::Bool(true))
    } else {
        &&& out.color == it.color
        &&& out.background_color == it.background_color
        &&& out.urgent == it.urgent
        &&& data_view(out.additional_data@) == data_view(it.additional_data@)
    }
}

proof fn lemma_last_visible_before_bound(s: Seq<I3Item>, i: int)
    ensures
        last_visible_before(s, i) matches Some(l) ==> 0 <= l < i,
    decreases i,
{
    if i > 0 {
        lemma_last_visible_before_bound(s, i - 1);
    }
}

proof fn lemma_count_visible_take(s: Seq<I3Item>, i: int)
    requires
        0 <= i < s.len(),
    ensures
        count_visible(s.take(i + 1)) == count_visible(s.take(i)) + if is_visible(s[i]) { 1nat } else { 0nat },
{
    assert(s.take(i + 1).drop_last() =~= s.take(i));
}

proof fn lemma_count_visible_bound(s: Seq<I3Item>)
    ensures
        count_visible(s) <= s.len(),
    decreases s.len(),
{
    if s.len() > 0 {
        lemma_count_visible_bound(s.drop_last());
    }
}

proof fn lemma_count_visible_mono(s: Seq<I3Item>, i: int, j: int)
    requires
        0 <= i <= j <= s.len(),
    ensures
        count_visible(s.take(i)) <= count_visible(s.take(j)),
    decreases j - i,
{
    if i < j {
        lemma_count_visible_mono(s, i, j - 1);
        lemma_count_visible_take(s, j - 1);
    }
}

proof fn lemma_count_visible_concat(a: Seq<I3Item>, b: Seq<I3Item>)
    ensures
        count_visible(a + b) == count_visible(a) + count_visible(b),
    decreases b.len(),
{
    if b.len() > 0 {
        assert((a + b).drop_last() =~= a + b.drop_last());
        lemma_count_visible_concat(a, b.drop_last());
    } else {
        assert(a + b =~= a);
    }
}

/// A shown block's powerline colours depend only on the number `r` of shown
/// blocks after it: its segment takes entry `(L - r % L) % L` of the theme's
/// `L` powerline colours (and that entry's background, when the block is not
/// urgent and sets no background). Blocks appearing or disappearing to its
/// left never change them.
pub proof fn lemma_powerline_color_from_right(theme: Theme, s: Seq<I3Item>, i: int)
    requires
        theme.powerline@.len() > 0,
        0 <= i < s.len(),
        is_visible(s[i]),
    ensures
        ({
            let len = theme.powerline@.len() as int;
            let r = count_visible(s.skip(i + 1)) as int;
            let this = this_color(theme, count_visible(s), count_visible(s.take(i)));
            &&& this == theme.powerline@[(len - r % len) % len]
            &&& (!is_urgent(s[i]) && s[i].background_color is None) ==> seg_bg(theme, s[i], this)
                == theme.powerline@[(len - r % len) % len].bg
        }),
{
    let len = theme.powerline@.len() as int;
    let before = s.take(i);
    let after = s.skip(i + 1);
    assert(s =~= before + seq![s[i]] + after);
    lemma_count_visible_concat(before + seq![s[i]], after);
    lemma_count_visible_concat(before, seq![s[i]]);
    let one = seq![s[i]];
    assert(one.drop_last() =~= Seq::<I3Item>::empty());
    assert(one.last() == s[i]);
    assert(count_visible(Seq::<I3Item>::empty()) == 0);
    assert(count_visible(one) == 1);
    let v = count_visible(s) as int;
    let k = count_visible(before) as int;
    let r = count_visible(after) as int;
    assert(v == r + k + 1);
    lemma_mod_count_back(len, v, k, r);
}

/// The separator block placed before the segment of the block at `i`.
fn make_separator(theme: &Theme, i: usize, bg: HexColor, sep_background: Option<HexColor>) -> (out: I3Item)
    ensures
        out.full_text@ == theme.powerline_separator.value@,
        out.instance matches Some(inst) && inst@ == decimal(i as nat),
        out.separator == Some(false),
        out.markup == Some(I3Markup::Pango),
        out.separator_block_width_px == Some(0usize),
        out.color == Some(bg),
        out.background_color == sep_background,
        data_view(out.additional_data@) == Map::<Seq<char>, ItemData>::empty().insert(data_key("powerline_sep"@), ItemData::Bool(true)),
        out.short_text is None,
        out.name is None,
        out.border_color is None,
        out.border_top_px is None,
        out.border_right_px is None,
        out.border_bottom_px is None,
        out.border_left_px is None,
        out.min_width is None,
        out.align is None,
        out.urgent is None,
{
    let span = theme.powerline_separator.to_span();
    let instance = u64_to_decimal(i as u64);
    let sep = I3Item::new(span.as_str())
        .instance(instance.as_str())
        .separator(false)
        .markup(I3Markup::Pango)
        .separator_block_width_px(0)
        .color(bg)
        .with_data("powerline_sep", ItemData::Bool(true));
    match sep_background {
        Some(c) => sep.background_color(c),
        None => sep,
    }
}

/// The block `item` styled as a powerline segment with background `bg`.
fn make_segment(theme: &Theme, item: &I3Item, this: PowerlineColor, bg: HexColor) -> (out: I3Item)
    ensures
        is_segment(out, *theme, *item, this, bg),
{
    let adjuster = make_color_adjuster(&theme.bg, &theme.dim);
    let adjusted_dim = adjuster.apply(&bg);
    let dim_text = theme.dim.display_rgb();
    let adjusted_text = adjusted_dim.display_rgb();
    let replaced = replace(item.full_text.as_str(), dim_text.as_str(), adjusted_text.as_str());
    let mut text = String::from_str(" ");
    text.append(replaced.as_str());
    text.append(" ");
    proof {
        reveal_strlit(" ");
    }
    let urgent = match item.urgent {
        Some(true) => true,
        _ => false,
    };
    let color = if urgent {
        theme.urgent_fg
    } else {
        match item.color {
            Some(c) => if c == theme.dim { adjusted_dim } else { c },
            None => this.fg,
        }
    };
    let out = item.duplicate()
        .full_text(text.as_str())
        .separator(false)
        .separator_block_width_px(0)
        .color(color)
        .background_color(bg)
        .urgent(false);
    assert(out.full_text@ == seg_text(*theme, *item, bg));
    assert(out.color == Some(seg_color(*theme, *item, this, bg)));
    // i3bar's own urgent styling is turned off; the urgent state stays
    // readable as an extra value
    if urgent {
        out.with_data("urgent", ItemData::Bool(true))
    } else {
        out
    }
}

/// The bar: the latest block of each item, left to right.
pub struct Bar {
    items: Vec<I3Item>,
}

impl Bar {
    /// The blocks of the bar, left to right.
    pub closed spec fn spec_items(self) -> Seq<I3Item> {
        self.items@
    }

    /// A bar of `item_count` empty blocks.
    pub fn new(item_count: usize) -> (b: Bar)
        ensures
            b.spec_items().len() == item_count,
            forall|i: int| 0 <= i < item_count ==> {
                &&& (#[trigger] b.spec_items()[i]).full_text@.len() == 0
                &&& b.spec_items()[i].is_bare()
            },
    {
        let mut items: Vec<I3Item> = Vec::new();
        let mut i: usize = 0;
        while i < item_count
            invariant
                i <= item_count,
                items@.len() == i,
                forall|j: int| 0 <= j < i ==> {
                    &&& (#[trigger] items@[j]).full_text@.len() == 0
                    &&& items@[j].is_bare()
                },
            decreases item_count - i,
        {
            items.push(I3Item::empty());
            i = i + 1;
        }
        Bar { items }
    }

    /// The number of blocks.
    pub fn len(&self) -> (n: usize)
        ensures
            n == self.spec_items().len(),
    {
        self.items.len()
    }

    /// The block at `index`.
    pub fn index(&self, index: usize) -> (r: &I3Item)
        requires
            index < self.spec_items().len(),
        ensures
            *r == self.spec_items()[index as int],
    {
        &self.items[index]
    }

    /// Replaces the block at `index`.
    pub fn set(&mut self, index: usize, item: I3Item)
        requires
            index < old(self).spec_items().len(),
        ensures
            final(self).spec_items() == old(self).spec_items().update(index as int, item),
    {
        self.items.set(index, item);
    }

    /// The blocks of the plain (non-powerline) bar.
    pub fn create_bar(&self, theme: &Theme) -> (r: Vec<I3Item>)
        ensures
            r@.len() == self.spec_items().len(),
            forall|i: int| 0 <= i < r@.len() ==> is_plain_block(#[trigger] r@[i], *theme, self.spec_items()[i]),
    {
        let mut out: Vec<I3Item> = Vec::new();
        let mut i: usize = 0;
        while i < self.items.len()
            invariant
                i <= self.items@.len(),
                out@.len() == i,
                forall|j: int| 0 <= j < i ==> is_plain_block(#[trigger] out@[j], *theme, self.items@[j]),
            decreases self.items@.len() - i,
        {
            let item = self.items[i].duplicate();
            let styled = match item.urgent {
                Some(true) => item.color(theme.urgent_fg)
                    .background_color(theme.urgent_bg)
                    .urgent(false)
                    .with_data("urgent", ItemData::Bool(true)),
                _ => item,
            };
            out.push(styled);
            i = i + 1;
        }
        out
    }

    /// The blocks of the powerline bar: each shown block becomes a separator
    /// followed by the block itself, with the theme's powerline colours
    /// cycling from right to left; empty blocks are left out.
    pub fn create_powerline_bar(&self, theme: &Theme) -> (r: Vec<I3Item>)
        requires
            theme.powerline@.len() > 0,
        ensures
            r@.len() == 2 * count_visible(self.spec_items()),
            forall|i: int| 0 <= i < self.spec_items().len() && is_visible(#[trigger] self.spec_items()[i])
                ==> powerline_pair(r@, *theme, self.spec_items(), i),
    {
        let n = self.items.len();
        let ghost s = self.items@;
        let mut visible: usize = 0;
        let mut j: usize = 0;
        while j < n
            invariant
                n == s.len(),
                s == self.items@,
                j <= n,
                visible == count_visible(s.take(j as int)),
                visible <= j,
            decreases n - j,
        {
            proof {
                lemma_count_visible_take(s, j as int);
            }
            if !self.items[j].is_empty() {
                visible = visible + 1;
            }
            j = j + 1;
        }
        assert(s.take(n as int) =~= s);
        let plen = theme.powerline.len();
        let start = plen - visible % plen;
        let mut p: usize = start % plen;
        let mut k: usize = 0;
        let mut last: Option<usize> = None;
        let mut out: Vec<I3Item> = Vec::new();
        let mut i: usize = 0;
        assert(s.take(0) =~= Seq::<I3Item>::empty());
        while i < n
            invariant
                n == s.len(),
                s == self.items@,
                plen == theme.powerline@.len(),
                plen > 0,
                visible == count_visible(s),
                start as int == pl_start(plen as nat, visible as nat),
                i <= n,
                k == count_visible(s.take(i as int)),
                k <= i,
                out@.len() == 2 * k,
                p < plen,
                p as int == (start + k) % (plen as int),
                match last {
                    Some(l) => last_visible_before(s, i as int) == Some(l as int),
                    None => last_visible_before(s, i as int) is None,
                },
                forall|x: int| 0 <= x < i && is_visible(#[trigger] s[x]) ==> powerline_pair(out@, *theme, s, x),
            decreases n - i,
        {
            proof {
                lemma_count_visible_take(s, i as int);
                lemma_count_visible_mono(s, i as int + 1, n as int);
                lemma_last_visible_before_bound(s, i as int);
                assert(s.take(n as int) =~= s);
            }
            let item = &self.items[i];
            if !item.is_empty() {
                let prev = theme.powerline[p];
                let q: usize = if p + 1 == plen { 0 } else { p + 1 };
                proof {
                    lemma_mod_step_up(start + k, plen as int);
                }
                let this = theme.powerline[q];
                let bg = match item.urgent {
                    Some(true) => theme.urgent_bg,
                    _ => match item.background_color {
                        Some(c) => c,
                        None => this.bg,
                    },
                };
                let sep_background = match last {
                    Some(l) => {
                        let prev_item = &self.items[l];
                        Some(match prev_item.urgent {
                            Some(true) => theme.urgent_bg,
                            _ => match prev_item.background_color {
                                Some(c) => c,
                                None => prev.bg,
                            },
                        })
                    },
                    None => None,
                };
                let sep = make_separator(theme, i, bg, sep_background);
                let seg = make_segment(theme, item, this, bg);
                let ghost old_out = out@;
                out.push(sep);
                out.push(seg);
                proof {
                    assert forall|x: int| 0 <= x < i + 1 && is_visible(#[trigger] s[x]) implies powerline_pair(out@, *theme, s, x) by {
                        if x < i {
                            lemma_count_visible_take(s, x);
                            lemma_count_visible_mono(s, x + 1, i as int);
                            let r = count_visible(s.take(x)) as int;
                            assert(out@[2 * r] == old_out[2 * r]);
                            assert(out@[2 * r + 1] == old_out[2 * r + 1]);
                        } else {
                            assert(x == i);
                            assert(out@[2 * k as int] == sep);
                            assert(out@[2 * k as int + 1] == seg);
                        }
                    }
                }
                p = q;
                k = k + 1;
                last = Some(i);
            } else {
                proof {
                    assert forall|x: int| 0 <= x < i + 1 && is_visible(#[trigger] s[x]) implies powerline_pair(out@, *theme, s, x) by {
                        assert(x != i);
                    }
                }
            }
            i = i + 1;
        }
        out
    }

    /// The blocks to send to i3bar: the powerline bar when the theme enables
    /// it, else the plain bar.
    pub fn get_items(&self, theme: &Theme) -> (r: Vec<I3Item>)
        requires
            theme.powerline_enable ==> theme.powerline@.len() > 0,
        ensures
            theme.powerline_enable ==> r@.len() == 2 * count_visible(self.spec_items()) && forall|i: int|
                0 <= i < self.spec_items().len() && is_visible(#[trigger] self.spec_items()[i])
                    ==> powerline_pair(r@, *theme, self.spec_items(), i),
            !theme.powerline_enable ==> r@.len() == self.spec_items().len() && forall|i: int|
                0 <= i < r@.len() ==> is_plain_block(#[trigger] r@[i], *theme, self.spec_items()[i]),
    {
        if theme.powerline_enable {
            self.create_powerline_bar(theme)
        } else {
            self.create_bar(theme)
        }
    }

    /// Whether any block asks for attention.
    pub fn any_urgent(&self) -> (r: bool)
        ensures
            r == exists|i: int| 0 <= i < self.spec_items().len() && is_urgent(#[trigger] self.spec_items()[i]),
    {
        let mut i: usize = 0;
        while i < self.items.len()
            invariant
                i <= self.items@.len(),
                forall|j: int| 0 <= j < i ==> !is_urgent(#[trigger] self.items@[j]),
            decreases self.items@.len() - i,
        {
            match self.items[i].urgent {
                Some(true) => {
                    assert(is_urgent(self.spec_items()[i as int]));
                    return true;
                },
                _ => {},
            }
            i = i + 1;
        }
        false
    }
}

} // verus!
