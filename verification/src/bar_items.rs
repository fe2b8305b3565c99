//! The items of the bar: what each shows, and how it reacts to events.

pub mod battery;
pub mod disk;
pub mod kbd;
pub mod light;
pub mod net_usage;
pub mod nic;
pub mod notify;
pub mod script;
pub mod sensors;
pub mod tuxedo;
pub mod usage;

use vstd::prelude::*;

use crate::color::{hex_rgb_text, HexColor};
use crate::format::{fraction, fraction_text};
use crate::i3::bar_item::{data_view, I3Item, I3Markup, ItemData};
use crate::i3::click::I3Button;
use crate::theme::Theme;

verus! {

/// `it` is a block with exactly these properties set, and no extra values.
pub open spec fn block(
    it: I3Item,
    full: Seq<char>,
    short: Option<Seq<char>>,
    color: Option<HexColor>,
    background: Option<HexColor>,
    urgent: Option<bool>,
    markup: Option<I3Markup>,
) -> bool {
    block_with_data(it, full, short, color, background, urgent, markup, Map::<Seq<char>, ItemData>::empty())
}

/// `it` is a block with exactly these properties and extra values set.
pub open spec fn block_with_data(
    it: I3Item,
    full: Seq<char>,
    short: Option<Seq<char>>,
    color: Option<HexColor>,
    background: Option<HexColor>,
    urgent: Option<bool>,
    markup: Option<I3Markup>,
    data: Map<Seq<char>, ItemData>,
) -> bool {
    &&& it.full_text@ == full
    &&& match short {
        Some(s) => it.short_text matches Some(t) && t@ == s,
        None => it.short_text is None,
    }
    &&& it.color == color
    &&& it.background_color == background
    &&& it.urgent == urgent
    &&& it.markup == markup
    &&& it.instance is None
    &&& it.name is None
    &&& it.border_color is None
    &&& it.border_top_px is None
    &&& it.border_right_px is None
    &&& it.border_bottom_px is None
    &&& it.border_left_px is None
    &&& it.min_width is None
    &&& it.align is None
    &&& it.separator is None
    &&& it.separator_block_width_px is None
    &&& data_view(it.additional_data@) == data
}

/// The pango attribute that sets a foreground colour, or nothing.
pub open spec fn fg_attr_text(c: Option<HexColor>) -> Seq<char> {
    match c {
        Some(c) => " foreground=\""@ + hex_rgb_text(c) + "\""@,
        None => Seq::empty(),
    }
}

/// The pango attribute that sets a foreground colour, or nothing.
pub fn fg_attr(c: Option<HexColor>) -> (r: String)
    ensures
        r@ == fg_attr_text(c),
{
    match c {
        Some(c) => {
            let mut r = String::from_str(" foreground=\"");
            let h = c.display_rgb();
            r.append(h.as_str());
            r.append("\"");
            r
        },
        None => String::new(),
    }
}

/// The page shown after a click on page `page` of `pages`: forward with the
/// left button or scrolling up, back with the right button or scrolling
/// down, wrapping around; other buttons, or no pages, leave it.
pub open spec fn page_after(page: nat, pages: nat, button: I3Button) -> nat {
    if pages == 0 {
        page
    } else if button == I3Button::Left || button == I3Button::ScrollUp {
        if page + 1 == pages { 0 } else { page + 1 }
    } else if button == I3Button::Right || button == I3Button::ScrollDown {
        if page == 0 { (pages - 1) as nat } else { (page - 1) as nat }
    } else {
        page
    }
}

/// Turning a page forward and then back, or back and then forward, shows
/// the page shown before.
pub proof fn lemma_page_turn_undone(page: nat, pages: nat)
    requires
        page < pages,
    ensures
        page_after(page_after(page, pages, I3Button::Left), pages, I3Button::Right) == page,
        page_after(page_after(page, pages, I3Button::Right), pages, I3Button::Left) == page,
        page_after(page, pages, I3Button::Left) < pages,
        page_after(page, pages, I3Button::Right) < pages,
{
}

/// Which of several things (batteries, disks, ...) an item shows; clicks turn
/// the pages.
#[derive(Debug, Clone, Copy, PartialEq, Eq, Structural)]
pub struct Paginator {
    idx: usize,
    len: usize,
}

impl Paginator {
    /// The page shown, counting from zero.
    pub closed spec fn page(self) -> nat {
        self.idx as nat
    }

    /// The number of pages.
    pub closed spec fn pages(self) -> nat {
        self.len as nat
    }

    pub closed spec fn wf(self) -> bool {
        self.len == 0 && self.idx == 0 || self.idx < self.len
    }

    /// No pages yet.
    pub fn new() -> (r: Paginator)
        ensures
            r.wf(),
            r.page() == 0,
            r.pages() == 0,
    {
        Paginator { idx: 0, len: 0 }
    }

    /// Sets the number of pages; the page shown stays if it still exists,
    /// else the first is shown.
    pub fn set_len(&mut self, len: usize)
        requires
            old(self).wf(),
        ensures
            final(self).wf(),
            final(self).pages() == len,
            final(self).page() == if old(self).page() < len { old(self).page() } else { 0 },
    {
        self.len = len;
        if self.idx >= len {
            self.idx = 0;
        }
    }

    /// The page shown, counting from zero.
    pub fn idx(&self) -> (r: usize)
        requires
            self.wf(),
        ensures
            r == self.page(),
            self.pages() > 0 ==> r < self.pages(),
    {
        self.idx
    }

    /// Turns the page on a click: forward with the left button or scrolling
    /// up, back with the right button or scrolling down, wrapping around.
    pub fn update(&mut self, button: I3Button)
        requires
            old(self).wf(),
        ensures
            final(self).wf(),
            final(self).pages() == old(self).pages(),
            final(self).page() == page_after(old(self).page(), old(self).pages(), button),
    {
        if self.len == 0 {
            return;
        }
        match button {
            I3Button::Left | I3Button::ScrollUp => {
                self.idx = if self.idx + 1 == self.len { 0 } else { self.idx + 1 };
            },
            I3Button::Right | I3Button::ScrollDown => {
                self.idx = if self.idx == 0 { self.len - 1 } else { self.idx - 1 };
            },
            _ => {},
        }
    }

    /// The page marker: the page (from one) over the number of pages, shown
    /// when there is more than one.
    pub fn format(&self, theme: &Theme) -> (r: String)
        requires
            self.wf(),
        ensures
            r@ == fraction_text(*theme, self.page() + 1, self.pages()),
    {
        if self.len <= 1 {
            return String::new();
        }
        fraction(theme, self.idx + 1, self.len)
    }
}

} // verus!
