use vstd::prelude::*;

use crate::color::{hex_json_text, HexColor};
use crate::text::{decimal, u64_to_decimal};

verus! {

/// Text alignment within a block.
#[derive(Debug, Default, Copy, Clone, PartialEq, Eq, Structural)]
pub enum I3Align {
    #[default]
    Center,
    Right,
    Left,
}

/// The markup language of a block's text.
#[derive(Debug, Default, Copy, Clone, PartialEq, Eq, Structural)]
pub enum I3Markup {
    #[default]
    Plain,
    Pango,
}

impl I3Markup {
    /// Whether no markup is in effect: either none was given, or `None` was.
    pub fn is_none(opt: &Option<Self>) -> (r: bool)
        ensures
            r == (opt is None || *opt == Some(I3Markup::Plain)),
    {
        match opt {
            None => true,
            Some(inner) => match inner {
                I3Markup::Plain => true,
                I3Markup::Pango => false,
            },
        }
    }
}

/// The minimum width of a block.
#[derive(Debug, Clone, PartialEq, Eq)]
pub enum I3MinWidth {
    /// A width in pixels.
    Pixels(usize),
    /// The width of this many `x` characters.
    StringCount(usize),
    /// The width of this text.
    String(String),
}

/// `n` copies of `x`.
pub open spec fn x_repeat(n: nat) -> Seq<char>
    decreases n,
{
    if n == 0 {
        Seq::empty()
    } else {
        x_repeat((n - 1) as nat).push('x')
    }
}

impl I3MinWidth {
    /// The text whose width i3bar reserves; `None` for a width in pixels.
    pub fn as_text(&self) -> (r: Option<String>)
        ensures
            match *self {
                I3MinWidth::Pixels(_) => r is None,
                I3MinWidth::StringCount(n) => r matches Some(s) && s@ == x_repeat(n as nat),
                I3MinWidth::String(t) => r matches Some(s) && s@ == t@,
            },
    {
        match self {
            I3MinWidth::Pixels(_) => None,
            I3MinWidth::StringCount(n) => {
                let mut s = String::new();
                let mut i: usize = 0;
                while i < *n
                    invariant
                        i <= *n,
                        s@ == x_repeat(i as nat),
                    decreases *n - i,
                {
                    s.push('x');
                    i = i + 1;
                }
                Some(s)
            },
            I3MinWidth::String(t) => Some(t.clone()),
        }
    }
}

/// An extra value attached to a block under a key starting with `_`.
#[derive(Debug, Clone, PartialEq)]
pub enum ItemData {
    Bool(bool),
    Text(String),
    /// Any other JSON value, as JSON text.
    Json(String),
}

/// The extra values of a block: later entries win over earlier ones with the
/// same key.
pub open spec fn data_view(s: Seq<(String, ItemData)>) -> Map<Seq<char>, ItemData>
    decreases s.len(),
{
    if s.len() == 0 {
        Map::empty()
    } else {
        data_view(s.drop_last()).insert(s.last().0@, s.last().1)
    }
}

/// The key under which an extra value is stored: i3bar wants extra keys to
/// begin with `_`, so one is added where it is missing.
pub open spec fn data_key(key: Seq<char>) -> Seq<char> {
    if key.len() > 0 && key[0] == '_' {
        key
    } else {
        seq!['_'] + key
    }
}

fn copy_opt_string(o: &Option<String>) -> (r: Option<String>)
    ensures
        r == *o,
{
    match o {
        Some(v) => Some(v.clone()),
        None => None,
    }
}

impl ItemData {
    /// A copy of this value.
    pub fn duplicate(&self) -> (r: ItemData)
        ensures
            r == *self,
    {
        match self {
            ItemData::Bool(b) => ItemData::Bool(*b),
            ItemData::Text(t) => ItemData::Text(t.clone()),
            ItemData::Json(j) => ItemData::Json(j.clone()),
        }
    }
}

impl I3MinWidth {
    /// A copy of this width.
    pub fn duplicate(&self) -> (r: I3MinWidth)
        ensures
            r == *self,
    {
        match self {
            I3MinWidth::Pixels(n) => I3MinWidth::Pixels(*n),
            I3MinWidth::StringCount(n) => I3MinWidth::StringCount(*n),
            I3MinWidth::String(t) => I3MinWidth::String(t.clone()),
        }
    }
}

/// One block of the bar.
#[derive(Debug, Default, Clone, PartialEq)]
pub struct I3Item {
    pub full_text: String,
    pub short_text: Option<String>,
    pub instance: Option<String>,
    pub name: Option<String>,
    pub color: Option<HexColor>,
    pub background_color: Option<HexColor>,
    pub border_color: Option<HexColor>,
    pub border_top_px: Option<usize>,
    pub border_right_px: Option<usize>,
    pub border_bottom_px: Option<usize>,
    pub border_left_px: Option<usize>,
    pub min_width: Option<I3MinWidth>,
    pub align: Option<I3Align>,
    pub urgent: Option<bool>,
    pub separator: Option<bool>,
    pub separator_block_width_px: Option<usize>,
    pub markup: Option<I3Markup>,
    pub additional_data: Vec<(String, ItemData)>,
}

impl I3Item {

    /// No property but the text is set.
    pub open spec fn is_bare(self) -> bool {
        &&& self.short_text is None
        &&& self.instance is None
        &&& self.name is None
        &&& self.color is None
        &&& self.background_color is None
        &&& self.border_color is None
        &&& self.border_top_px is None
        &&& self.border_right_px is None
        &&& self.border_bottom_px is None
        &&& self.border_left_px is None
        &&& self.min_width is None
        &&& self.align is None
        &&& self.urgent is None
        &&& self.separator is None
        &&& self.separator_block_width_px is None
        &&& self.markup is None
        &&& data_view(self.additional_data@) == Map::<Seq<char>, ItemData>::empty()
    }

    /// A block showing `full_text`, with no other property set.
    pub fn new(full_text: &str) -> (r: I3Item)
        ensures
            r.full_text@ == full_text@,
            r.is_bare(),
    {
        I3Item {
            full_text: String::from_str(full_text),
            short_text: None,
            instance: None,
            name: None,
            color: None,
            background_color: None,
            border_color: None,
            border_top_px: None,
            border_right_px: None,
            border_bottom_px: None,
            border_left_px: None,
            min_width: None,
            align: None,
            urgent: None,
            separator: None,
            separator_block_width_px: None,
            markup: None,
            additional_data: Vec::new(),
        }
    }

    /// A block without text; the bar hides it.
    pub fn empty() -> (r: I3Item)
        ensures
            r.full_text@.len() == 0,
            r.is_bare(),
    {
        proof {
            reveal_strlit("");
        }
        I3Item::new("")
    }

    /// Set the name of the item.
    pub fn name(self, name: &str) -> (r: I3Item)
        ensures
            r.name matches Some(v) && v@ == name@,
            r == (I3Item { name: r.name, ..self }),
    {
        I3Item { name: Some(String::from_str(name)), ..self }
    }

    pub fn get_name(&self) -> (r: Option<&String>)
        ensures
            match r { Some(v) => self.name == Some(*v), None => self.name is None },
    {
        self.name.as_ref()
    }

    /// Set the instance of the item.
    pub fn instance(self, instance: &str) -> (r: I3Item)
        ensures
            r.instance matches Some(v) && v@ == instance@,
            r == (I3Item { instance: r.instance, ..self }),
    {
        I3Item { instance: Some(String::from_str(instance)), ..self }
    }

    pub fn get_instance(&self) -> (r: Option<&String>)
        ensures
            match r { Some(v) => self.instance == Some(*v), None => self.instance is None },
    {
        self.instance.as_ref()
    }

    /// Set the short text of the item.
    pub fn short_text(self, short_text: &str) -> (r: I3Item)
        ensures
            r.short_text matches Some(v) && v@ == short_text@,
            r == (I3Item { short_text: r.short_text, ..self }),
    {
        I3Item { short_text: Some(String::from_str(short_text)), ..self }
    }

    pub fn get_short_text(&self) -> (r: Option<&String>)
        ensures
            match r { Some(v) => self.short_text == Some(*v), None => self.short_text is None },
    {
        self.short_text.as_ref()
    }

    /// Replace the text of the item.
    pub fn full_text(self, full_text: &str) -> (r: I3Item)
        ensures
            r.full_text@ == full_text@,
            r == (I3Item { full_text: r.full_text, ..self }),
    {
        I3Item { full_text: String::from_str(full_text), ..self }
    }

    pub fn get_full_text(&self) -> (r: &String)
        ensures
            r == self.full_text,
    {
        &self.full_text
    }

    pub fn color(self, color: HexColor) -> (r: I3Item)
        ensures
            r == (I3Item { color: Some(color), ..self }),
    {
        I3Item { color: Some(color), ..self }
    }

    pub fn get_color(&self) -> (r: Option<&HexColor>)
        ensures
            match r { Some(v) => self.color == Some(*v), None => self.color is None },
    {
        self.color.as_ref()
    }

    pub fn background_color(self, background_color: HexColor) -> (r: I3Item)
        ensures
            r == (I3Item { background_color: Some(background_color), ..self }),
    {
        I3Item { background_color: Some(background_color), ..self }
    }

    pub fn get_background_color(&self) -> (r: Option<&HexColor>)
        ensures
            match r { Some(v) => self.background_color == Some(*v), None => self.background_color is None },
    {
        self.background_color.as_ref()
    }

    pub fn border_color(self, border_color: HexColor) -> (r: I3Item)
        ensures
            r == (I3Item { border_color: Some(border_color), ..self }),
    {
        I3Item { border_color: Some(border_color), ..self }
    }

    pub fn get_border_color(&self) -> (r: Option<&HexColor>)
        ensures
            match r { Some(v) => self.border_color == Some(*v), None => self.border_color is None },
    {
        self.border_color.as_ref()
    }

    pub fn border_top_px(self, border_top_px: usize) -> (r: I3Item)
        ensures
            r == (I3Item { border_top_px: Some(border_top_px), ..self }),
    {
        I3Item { border_top_px: Some(border_top_px), ..self }
    }

    pub fn get_border_top_px(&self) -> (r: Option<&usize>)
        ensures
            match r { Some(v) => self.border_top_px == Some(*v), None => self.border_top_px is None },
    {
        self.border_top_px.as_ref()
    }

    pub fn border_right_px(self, border_right_px: usize) -> (r: I3Item)
        ensures
            r == (I3Item { border_right_px: Some(border_right_px), ..self }),
    {
        I3Item { border_right_px: Some(border_right_px), ..self }
    }

    pub fn get_border_right_px(&self) -> (r: Option<&usize>)
        ensures
            match r { Some(v) => self.border_right_px == Some(*v), None => self.border_right_px is None },
    {
        self.border_right_px.as_ref()
    }

    pub fn border_bottom_px(self, border_bottom_px: usize) -> (r: I3Item)
        ensures
            r == (I3Item { border_bottom_px: Some(border_bottom_px), ..self }),
    {
        I3Item { border_bottom_px: Some(border_bottom_px), ..self }
    }

    pub fn get_border_bottom_px(&self) -> (r: Option<&usize>)
        ensures
            match r { Some(v) => self.border_bottom_px == Some(*v), None => self.border_bottom_px is None },
    {
        self.border_bottom_px.as_ref()
    }

    pub fn border_left_px(self, border_left_px: usize) -> (r: I3Item)
        ensures
            r == (I3Item { border_left_px: Some(border_left_px), ..self }),
    {
        I3Item { border_left_px: Some(border_left_px), ..self }
    }

    pub fn get_border_left_px(&self) -> (r: Option<&usize>)
        ensures
            match r { Some(v) => self.border_left_px == Some(*v), None => self.border_left_px is None },
    {
        self.border_left_px.as_ref()
    }

    pub fn min_width(self, min_width: I3MinWidth) -> (r: I3Item)
        ensures
            r == (I3Item { min_width: Some(min_width), ..self }),
    {
        I3Item { min_width: Some(min_width), ..self }
    }

    pub fn get_min_width(&self) -> (r: Option<&I3MinWidth>)
        ensures
            match r { Some(v) => self.min_width == Some(*v), None => self.min_width is None },
    {
        self.min_width.as_ref()
    }

    pub fn align(self, align: I3Align) -> (r: I3Item)
        ensures
            r == (I3Item { align: Some(align), ..self }),
    {
        I3Item { align: Some(align), ..self }
    }

    pub fn get_align(&self) -> (r: Option<&I3Align>)
        ensures
            match r { Some(v) => self.align == Some(*v), None => self.align is None },
    {
        self.align.as_ref()
    }

    pub fn urgent(self, urgent: bool) -> (r: I3Item)
        ensures
            r == (I3Item { urgent: Some(urgent), ..self }),
    {
        I3Item { urgent: Some(urgent), ..self }
    }

    pub fn get_urgent(&self) -> (r: Option<&bool>)
        ensures
            match r { Some(v) => self.urgent == Some(*v), None => self.urgent is None },
    {
        self.urgent.as_ref()
    }

    pub fn separator(self, separator: bool) -> (r: I3Item)
        ensures
            r == (I3Item { separator: Some(separator), ..self }),
    {
        I3Item { separator: Some(separator), ..self }
    }

    pub fn get_separator(&self) -> (r: Option<&bool>)
        ensures
            match r { Some(v) => self.separator == Some(*v), None => self.separator is None },
    {
        self.separator.as_ref()
    }

    pub fn separator_block_width_px(self, separator_block_width_px: usize) -> (r: I3Item)
        ensures
            r == (I3Item { separator_block_width_px: Some(separator_block_width_px), ..self }),
    {
        I3Item { separator_block_width_px: Some(separator_block_width_px), ..self }
    }

    pub fn get_separator_block_width_px(&self) -> (r: Option<&usize>)
        ensures
            match r { Some(v) => self.separator_block_width_px == Some(*v), None => self.separator_block_width_px is None },
    {
        self.separator_block_width_px.as_ref()
    }

    pub fn markup(self, markup: I3Markup) -> (r: I3Item)
        ensures
            r == (I3Item { markup: Some(markup), ..self }),
    {
        I3Item { markup: Some(markup), ..self }
    }

    pub fn get_markup(&self) -> (r: Option<&I3Markup>)
        ensures
            match r { Some(v) => self.markup == Some(*v), None => self.markup is None },
    {
        self.markup.as_ref()
    }

    /// Attach an extra value; i3bar wants the keys of extra values to begin
    /// with `_`, so one is added where it is missing. A value already stored
    /// under the same key is replaced.
    pub fn with_data(self, key: &str, value: ItemData) -> (r: I3Item)
        ensures
            data_view(r.additional_data@) == data_view(self.additional_data@).insert(data_key(key@), value),
            r == (I3Item { additional_data: r.additional_data, ..self }),
    {
        let starts_with_underscore = key.unicode_len() > 0 && key.get_char(0) == '_';
        let full_key = if starts_with_underscore {
            String::from_str(key)
        } else {
            let mut k = String::from_str("_");
            proof {
                reveal_strlit("_");
            }
            k.append(key);
            k
        };
        let mut data = self.additional_data;
        data.push((full_key, value));
        proof {
            assert(full_key@ == data_key(key@));
            assert(data@.drop_last() =~= self.additional_data@);
            assert(data@.last() == (full_key, value));
        }
        I3Item { additional_data: data, ..self }
    }

    /// A copy of this block.
    pub fn duplicate(&self) -> (r: I3Item)
        ensures
            r.full_text == self.full_text,
            r.short_text == self.short_text,
            r.instance == self.instance,
            r.name == self.name,
            r.color == self.color,
            r.background_color == self.background_color,
            r.border_color == self.border_color,
            r.border_top_px == self.border_top_px,
            r.border_right_px == self.border_right_px,
            r.border_bottom_px == self.border_bottom_px,
            r.border_left_px == self.border_left_px,
            r.min_width == self.min_width,
            r.align == self.align,
            r.urgent == self.urgent,
            r.separator == self.separator,
            r.separator_block_width_px == self.separator_block_width_px,
            r.markup == self.markup,
            r.additional_data@ == self.additional_data@,
    {
        let mut data: Vec<(String, ItemData)> = Vec::new();
        let mut i: usize = 0;
        while i < self.additional_data.len()
            invariant
                i <= self.additional_data@.len(),
                data@ == self.additional_data@.take(i as int),
            decreases self.additional_data@.len() - i,
        {
            let entry = &self.additional_data[i];
            data.push((entry.0.clone(), entry.1.duplicate()));
            i = i + 1;
            assert(data@ =~= self.additional_data@.take(i as int));
        }
        assert(data@ =~= self.additional_data@);
        I3Item {
            full_text: self.full_text.clone(),
            short_text: copy_opt_string(&self.short_text),
            instance: copy_opt_string(&self.instance),
            name: copy_opt_string(&self.name),
            color: self.color,
            background_color: self.background_color,
            border_color: self.border_color,
            border_top_px: self.border_top_px,
            border_right_px: self.border_right_px,
            border_bottom_px: self.border_bottom_px,
            border_left_px: self.border_left_px,
            min_width: match &self.min_width {
                Some(w) => Some(w.duplicate()),
                None => None,
            },
            align: self.align,
            urgent: self.urgent,
            separator: self.separator,
            separator_block_width_px: self.separator_block_width_px,
            markup: self.markup,
            additional_data: data,
        }
    }

    /// Whether the block has no text.
    pub fn is_empty(&self) -> (r: bool)
        ensures
            r == (self.full_text@.len() == 0),
    {
        self.full_text.as_str().is_empty()
    }
}

/// An environment entry: a key and its value.
pub open spec fn entry_view(p: (String, String)) -> (Seq<char>, Seq<char>) {
    (p.0@, p.1@)
}

/// The entry for `key`, where there is a value.
pub open spec fn opt_entry(key: Seq<char>, val: Option<Seq<char>>) -> Seq<(Seq<char>, Seq<char>)> {
    match val {
        Some(v) => seq![(key, v)],
        None => Seq::empty(),
    }
}

/// A text property's value.
pub open spec fn text_value(o: Option<String>) -> Option<Seq<char>> {
    match o {
        Some(s) => Some(s@),
        None => None,
    }
}

/// A colour property's value: its JSON text.
pub open spec fn color_value(o: Option<HexColor>) -> Option<Seq<char>> {
    match o {
        Some(c) => Some(hex_json_text(c)),
        None => None,
    }
}

/// A number property's value, in decimal.
pub open spec fn number_value(o: Option<usize>) -> Option<Seq<char>> {
    match o {
        Some(n) => Some(decimal(n as nat)),
        None => None,
    }
}

/// `true` or `false`.
pub open spec fn bool_text(b: bool) -> Seq<char> {
    if b {
        "true"@
    } else {
        "false"@
    }
}

/// A flag property's value.
pub open spec fn flag_value(o: Option<bool>) -> Option<Seq<char>> {
    match o {
        Some(b) => Some(bool_text(b)),
        None => None,
    }
}

/// The minimum width's value: a width in pixels in decimal, else its text.
pub open spec fn min_width_value(o: Option<I3MinWidth>) -> Option<Seq<char>> {
    match o {
        Some(I3MinWidth::Pixels(n)) => Some(decimal(n as nat)),
        Some(I3MinWidth::StringCount(n)) => Some(x_repeat(n as nat)),
        Some(I3MinWidth::String(t)) => Some(t@),
        None => None,
    }
}

/// The alignment's value, in lower case.
pub open spec fn align_value(o: Option<I3Align>) -> Option<Seq<char>> {
    match o {
        Some(I3Align::Center) => Some("center"@),
        Some(I3Align::Right) => Some("right"@),
        Some(I3Align::Left) => Some("left"@),
        None => None,
    }
}

/// The markup's value: only pango markup is written.
pub open spec fn markup_value(o: Option<I3Markup>) -> Option<Seq<char>> {
    match o {
        Some(I3Markup::Pango) => Some("pango"@),
        _ => None,
    }
}

/// An extra value's text: text as it is, anything else as JSON text.
pub open spec fn data_text(d: ItemData) -> Seq<char> {
    match d {
        ItemData::Bool(b) => bool_text(b),
        ItemData::Text(t) => t@,
        ItemData::Json(j) => j@,
    }
}

/// The entries of a block's extra values, in order.
pub open spec fn data_entries(s: Seq<(String, ItemData)>) -> Seq<(Seq<char>, Seq<char>)>
    decreases s.len(),
{
    if s.len() == 0 {
        Seq::empty()
    } else {
        data_entries(s.drop_last()).push((s.last().0@, data_text(s.last().1)))
    }
}

/// The environment entries of a block, in order: each property that is set,
/// under its name in the i3bar protocol, then the extra values. Where a key
/// comes twice, the later entry is the one that counts.
pub open spec fn env_entries(it: I3Item) -> Seq<(Seq<char>, Seq<char>)> {
    seq![("full_text"@, it.full_text@)]
        + opt_entry("short_text"@, text_value(it.short_text))
        + opt_entry("instance"@, text_value(it.instance))
        + opt_entry("name"@, text_value(it.name))
        + opt_entry("color"@, color_value(it.color))
        + opt_entry("background"@, color_value(it.background_color))
        + opt_entry("border"@, color_value(it.border_color))
        + opt_entry("border_top"@, number_value(it.border_top_px))
        + opt_entry("border_right"@, number_value(it.border_right_px))
        + opt_entry("border_bottom"@, number_value(it.border_bottom_px))
        + opt_entry("border_left"@, number_value(it.border_left_px))
        + opt_entry("min_width"@, min_width_value(it.min_width))
        + opt_entry("align"@, align_value(it.align))
        + opt_entry("urgent"@, flag_value(it.urgent))
        + opt_entry("separator"@, flag_value(it.separator))
        + opt_entry("separator_block_width"@, number_value(it.separator_block_width_px))
        + opt_entry("markup"@, markup_value(it.markup))
        + data_entries(it.additional_data@)
}

/// Adds the entry for `key` where there is a value.
fn push_entry(out: &mut Vec<(String, String)>, key: &str, val: Option<String>)
    ensures
        final(out)@.map_values(|p: (String, String)| entry_view(p)) == old(out)@.map_values(
            |p: (String, String)| entry_view(p),
        ) + opt_entry(key@, text_value(val)),
{
    match val {
        Some(v) => {
            out.push((String::from_str(key), v));
        },
        None => {},
    }
    assert(final(out)@.map_values(|p: (String, String)| entry_view(p)) =~= old(out)@.map_values(
        |p: (String, String)| entry_view(p),
    ) + opt_entry(key@, text_value(val)));
}

fn color_entry(c: Option<HexColor>) -> (r: Option<String>)
    ensures
        text_value(r) == color_value(c),
{
    match c {
        Some(c) => Some(c.json_text()),
        None => None,
    }
}

fn number_entry(n: Option<usize>) -> (r: Option<String>)
    ensures
        text_value(r) == number_value(n),
{
    match n {
        Some(n) => Some(u64_to_decimal(n as u64)),
        None => None,
    }
}

fn flag_text(b: bool) -> (r: String)
    ensures
        r@ == bool_text(b),
{
    if b {
        String::from_str("true")
    } else {
        String::from_str("false")
    }
}

fn flag_entry(b: Option<bool>) -> (r: Option<String>)
    ensures
        text_value(r) == flag_value(b),
{
    match b {
        Some(b) => Some(flag_text(b)),
        None => None,
    }
}

impl I3Item {
    /// The block as environment entries: each property that is set, under
    /// its name in the i3bar protocol, with text as it is and other values as
    /// JSON text, then the extra values. Where a key comes twice the later
    /// entry counts.
    pub fn as_env_map(&self) -> (r: Vec<(String, String)>)
        ensures
            r@.map_values(|p: (String, String)| entry_view(p)) == env_entries(*self),
    {
        let mut out: Vec<(String, String)> = Vec::new();
        out.push((String::from_str("full_text"), self.full_text.clone()));
        assert(out@.map_values(|p: (String, String)| entry_view(p)) =~= seq![("full_text"@, self.full_text@)]);
        push_entry(&mut out, "short_text", copy_opt_string(&self.short_text));
        push_entry(&mut out, "instance", copy_opt_string(&self.instance));
        push_entry(&mut out, "name", copy_opt_string(&self.name));
        push_entry(&mut out, "color", color_entry(self.color));
        push_entry(&mut out, "background", color_entry(self.background_color));
        push_entry(&mut out, "border", color_entry(self.border_color));
        push_entry(&mut out, "border_top", number_entry(self.border_top_px));
        push_entry(&mut out, "border_right", number_entry(self.border_right_px));
        push_entry(&mut out, "border_bottom", number_entry(self.border_bottom_px));
        push_entry(&mut out, "border_left", number_entry(self.border_left_px));
        let min_width = match &self.min_width {
            Some(I3MinWidth::Pixels(n)) => Some(u64_to_decimal(*n as u64)),
            Some(w) => w.as_text(),
            None => None,
        };
        push_entry(&mut out, "min_width", min_width);
        let align = match self.align {
            Some(I3Align::Center) => Some(String::from_str("center")),
            Some(I3Align::Right) => Some(String::from_str("right")),
            Some(I3Align::Left) => Some(String::from_str("left")),
            None => None,
        };
        push_entry(&mut out, "align", align);
        push_entry(&mut out, "urgent", flag_entry(self.urgent));
        push_entry(&mut out, "separator", flag_entry(self.separator));
        push_entry(&mut out, "separator_block_width", number_entry(self.separator_block_width_px));
        let markup = match self.markup {
            Some(I3Markup::Pango) => Some(String::from_str("pango")),
            _ => None,
        };
        push_entry(&mut out, "markup", markup);
        let ghost fields = out@.map_values(|p: (String, String)| entry_view(p));
        let mut i: usize = 0;
        while i < self.additional_data.len()
            invariant
                i <= self.additional_data@.len(),
                out@.map_values(|p: (String, String)| entry_view(p)) == fields + data_entries(
                    self.additional_data@.take(i as int),
                ),
            decreases self.additional_data@.len() - i,
        {
            let entry = &self.additional_data[i];
            let text = match &entry.1 {
                ItemData::Bool(b) => flag_text(*b),
                ItemData::Text(t) => t.clone(),
                ItemData::Json(j) => j.clone(),
            };
            assert(text@ == data_text(entry.1));
            let ghost before = out@;
            let key = entry.0.clone();
            out.push((key, text));
            proof {
                assert(out@.map_values(|p: (String, String)| entry_view(p)) =~= before.map_values(
                    |p: (String, String)| entry_view(p),
                ).push((entry.0@, data_text(entry.1))));
                let s = self.additional_data@.take(i + 1);
                assert(s.drop_last() =~= self.additional_data@.take(i as int));
                assert(s.last() == self.additional_data@[i as int]);
                assert(data_entries(s) == data_entries(self.additional_data@.take(i as int)).push(
                    (entry.0@, data_text(entry.1)),
                ));
            }
            i = i + 1;
            assert(out@.map_values(|p: (String, String)| entry_view(p)) =~= fields + data_entries(
                self.additional_data@.take(i as int),
            ));
        }
        assert(self.additional_data@.take(i as int) =~= self.additional_data@);
        out
    }
}

} // verus!
