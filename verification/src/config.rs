use vstd::prelude::*;

use crate::i3::bar_item::I3Item;
use crate::i3::click::I3Modifier;
use crate::text::{decimal, str_eq, u64_to_decimal};
use crate::theme::Theme;
use crate::util::{is_permutation, sort_by_indices};

verus! {

/// A command that an item runs when it is clicked.
#[derive(Debug, Clone)]
pub enum Action {
    /// Run the given command.
    Simple(String),
    /// Run the given command, if exactly these modifiers are held.
    WithOptions { command: String, modifiers: Vec<I3Modifier> },
}

/// One action or many.
#[derive(Debug, Clone)]
pub enum ActionWrapper {
    Single(Action),
    Many(Vec<Action>),
}

/// The actions configured for the buttons of an item.
#[derive(Debug, Clone)]
pub struct Actions {
    pub left_click: Option<ActionWrapper>,
    pub middle_click: Option<ActionWrapper>,
    pub right_click: Option<ActionWrapper>,
}

impl Default for Actions {
    fn default() -> (a: Actions)
        ensures
            a.left_click is None,
            a.middle_click is None,
            a.right_click is None,
    {
        Actions { left_click: None, middle_click: None, right_click: None }
    }
}

/// Configuration that every item has.
#[derive(Debug, Clone)]
pub struct Common {
    /// Name of the item, used by the IPC protocol; defaults to the item's type.
    pub name: Option<String>,
    /// Where the item should be placed, overriding its place in the list.
    pub index: Option<usize>,
    /// A real-time signal that refreshes the item.
    pub signal: Option<u32>,
    /// Set or unset the separator after this item.
    pub separator: Option<bool>,
    /// Commands to run on clicks.
    pub actions: Option<Actions>,
    /// Keep the item running without showing it.
    pub hidden: Option<bool>,
}

impl Default for Common {
    fn default() -> (c: Common)
        ensures
            c.name is None,
            c.index is None,
            c.signal is None,
            c.separator is None,
            c.actions is None,
            c.hidden is None,
    {
        Common { name: None, index: None, signal: None, separator: None, actions: None, hidden: None }
    }
}

/// The type of an item.
#[derive(Debug, Clone, Copy, PartialEq, Eq, Structural)]
pub enum ItemInner {
    Raw,
    Battery,
    Cpu,
    Disk,
    Dunst,
    Kbd,
    Krb,
    Light,
    Mako,
    Mem,
    NetUsage,
    Nic,
    Pulse,
    Script,
    Sensors,
    Time,
}

/// The tag under which an item type is written in the configuration.
pub open spec fn tag_text(i: ItemInner) -> Seq<char> {
    match i {
        ItemInner::Raw => "raw"@,
        ItemInner::Battery => "battery"@,
        ItemInner::Cpu => "cpu"@,
        ItemInner::Disk => "disk"@,
        ItemInner::Dunst => "dunst"@,
        ItemInner::Kbd => "kbd"@,
        ItemInner::Krb => "krb"@,
        ItemInner::Light => "light"@,
        ItemInner::Mako => "mako"@,
        ItemInner::Mem => "mem"@,
        ItemInner::NetUsage => "net_usage"@,
        ItemInner::Nic => "nic"@,
        ItemInner::Pulse => "pulse"@,
        ItemInner::Script => "script"@,
        ItemInner::Sensors => "sensors"@,
        ItemInner::Time => "time"@,
    }
}

impl ItemInner {
    /// The configuration tag of this item type.
    pub fn tag(&self) -> (r: &'static str)
        ensures
            r@ == tag_text(*self),
    {
        match self {
            ItemInner::Raw => "raw",
            ItemInner::Battery => "battery",
            ItemInner::Cpu => "cpu",
            ItemInner::Disk => "disk",
            ItemInner::Dunst => "dunst",
            ItemInner::Kbd => "kbd",
            ItemInner::Krb => "krb",
            ItemInner::Light => "light",
            ItemInner::Mako => "mako",
            ItemInner::Mem => "mem",
            ItemInner::NetUsage => "net_usage",
            ItemInner::Nic => "nic",
            ItemInner::Pulse => "pulse",
            ItemInner::Script => "script",
            ItemInner::Sensors => "sensors",
            ItemInner::Time => "time",
        }
    }
}

/// One configured item of the bar.
#[derive(Debug, Clone)]
pub struct Item {
    pub common: Common,
    pub inner: ItemInner,
}

/// The name of an item: the configured one, else its type's tag.
pub open spec fn item_name(it: Item) -> Seq<char> {
    match it.common.name {
        Some(n) => n@,
        None => tag_text(it.inner),
    }
}

impl Item {
    pub fn new(common: Common, inner: ItemInner) -> (r: Item)
        ensures
            r.common == common,
            r.inner == inner,
    {
        Item { common, inner }
    }

    /// The item's name: the configured one, else its type's tag.
    pub fn name(&self) -> (r: String)
        ensures
            r@ == item_name(*self),
    {
        match &self.common.name {
            Some(n) => n.clone(),
            None => String::from_str(self.inner.tag()),
        }
    }

    /// The block that this item, at place `idx`, shows in the bar: marked
    /// with its place (its `instance`, which clicks are routed by) and its
    /// name, with the configured separator; a hidden item shows nothing.
    pub fn place_block(&self, idx: usize, block: I3Item) -> (r: I3Item)
        ensures
            self.common.hidden == Some(true) ==> r.full_text@.len() == 0 && r.is_bare(),
            self.common.hidden != Some(true) ==> {
                &&& r.instance matches Some(s) && s@ == decimal(idx as nat)
                &&& r.name matches Some(n) && n@ == item_name(*self)
                &&& r.separator == match self.common.separator {
                    Some(b) => Some(b),
                    None => block.separator,
                }
                &&& r == (I3Item { instance: r.instance, name: r.name, separator: r.separator, ..block })
            },
    {
        if self.common.hidden == Some(true) {
            return I3Item::empty();
        }
        let inst = u64_to_decimal(idx as u64);
        let name = self.name();
        let placed = block.instance(inst.as_str()).name(name.as_str());
        match self.common.separator {
            Some(b) => placed.separator(b),
            None => placed,
        }
    }
}

/// The `index` settings of a list of items.
pub open spec fn index_targets(items: Seq<Item>) -> Seq<Option<usize>> {
    items.map_values(|it: Item| it.common.index)
}

/// Where an item asking for place `t` goes among `len` items: the last place
/// at most.
pub open spec fn clamp_target(t: usize, len: nat) -> int {
    if len == 0 {
        0
    } else if t >= len {
        len - 1
    } else {
        t as int
    }
}

/// The order after the item at place `cur` has asked for place `target`:
/// its entry is taken out and put back at the (clamped) target.
pub open spec fn order_step(order: Seq<usize>, cur: int, target: Option<usize>) -> Seq<usize> {
    match target {
        None => order,
        Some(t) => order.remove(cur).insert(clamp_target(t, order.len()), order[cur]),
    }
}

/// The order of the items after the first `k` of them have asked for their
/// place, starting from the identity.
pub open spec fn item_order(targets: Seq<Option<usize>>, k: nat) -> Seq<usize>
    decreases k,
{
    if k == 0 {
        Seq::new(targets.len(), |i: int| i as usize)
    } else {
        order_step(item_order(targets, (k - 1) as nat), k - 1, targets[k - 1])
    }
}

/// Where position `j` of `o.remove(c).insert(p, o[c])` was in `o`.
pub open spec fn moved_from(c: int, p: int, j: int) -> int {
    let k = if j < p { j } else if j == p { -1 } else { j - 1 };
    if k == -1 { c } else if k < c { k } else { k + 1 }
}

proof fn lemma_step_permutation(o: Seq<usize>, n: nat, c: int, p: int)
    requires
        is_permutation(o, n),
        0 <= c < n,
        0 <= p < n,
    ensures
        is_permutation(o.remove(c).insert(p, o[c]), n),
        forall|j: int| 0 <= j < n ==> #[trigger] o.remove(c).insert(p, o[c])[j] == o[moved_from(c, p, j)],
{
    let r = o.remove(c);
    let q = r.insert(p, o[c]);
    o.remove_ensures(c);
    r.insert_ensures(p, o[c]);
    assert forall|j: int| 0 <= j < n implies #[trigger] q[j] == o[moved_from(c, p, j)]
        && 0 <= moved_from(c, p, j) < n by {
        if j > p {
            assert(q[j] == r[j - 1]);
        }
    }
    assert forall|i: int, j: int| 0 <= i < q.len() && 0 <= j < q.len() && i != j implies q[i] != q[j] by {
        assert(q[i] == o[moved_from(c, p, i)]);
        assert(q[j] == o[moved_from(c, p, j)]);
        assert(moved_from(c, p, i) != moved_from(c, p, j));
    }
    assert forall|j: int| 0 <= j < q.len() implies (#[trigger] q[j]) < n by {
        assert(q[j] == o[moved_from(c, p, j)]);
    }
}

/// Every intermediate order is a permutation of the items' places.
pub proof fn lemma_item_order_permutation(targets: Seq<Option<usize>>, k: nat)
    requires
        k <= targets.len(),
        targets.len() <= usize::MAX,
    ensures
        is_permutation(item_order(targets, k), targets.len()),
    decreases k,
{
    if k == 0 {
        let o = item_order(targets, 0);
        assert forall|i: int, j: int| 0 <= i < o.len() && 0 <= j < o.len() && i != j implies o[i] != o[j] by {
        }
    } else {
        lemma_item_order_permutation(targets, (k - 1) as nat);
        let o = item_order(targets, (k - 1) as nat);
        match targets[k - 1] {
            None => {},
            Some(t) => {
                lemma_step_permutation(o, targets.len(), k - 1, clamp_target(t, o.len()));
            },
        }
    }
}

/// Whether items `i` and `j` are different items configured with the same name.
pub open spec fn names_clash(items: Seq<Item>, i: int, j: int) -> bool {
    &&& i != j
    &&& 0 <= i < items.len()
    &&& 0 <= j < items.len()
    &&& match (items[i].common.name, items[j].common.name) {
        (Some(a), Some(b)) => a@ == b@,
        _ => false,
    }
}

/// The error for items `i` and `j` sharing `name`.
pub open spec fn clash_message(i: nat, j: nat, name: Seq<char>) -> Seq<char> {
    "item names must be unique, item["@ + decimal(i) + "] and item["@ + decimal(j)
        + "] share the same name: "@ + name
}

/// The clash that is reported: the one with the last first item, and for it
/// the first second item.
pub open spec fn reported_clash(items: Seq<Item>, i: int, j: int) -> bool {
    &&& names_clash(items, i, j)
    &&& forall|a: int, b: int| i < a < items.len() ==> !#[trigger] names_clash(items, a, b)
    &&& forall|b: int| 0 <= b < j ==> !#[trigger] names_clash(items, i, b)
}

/// One entry of an explicit `item_order` list, as the configuration holds it.
#[derive(Debug, Clone)]
pub enum OrderEntry {
    /// A string: the name of an item.
    Name(String),
    /// A number: the index of an item, or `None` for a number that is no
    /// index (negative or fractional).
    Index(Option<u64>),
    /// Anything else.
    Other,
}

/// The outcome of reading an `item_order` list.
pub enum OrderOutcome {
    Order(Seq<usize>),
    Error(Seq<char>),
    /// The list names an index twice that no item has, which the duplicate
    /// report cannot name.
    Invalid,
}

/// The last item named `name`: names are looked up in a map filled in item
/// order, so a later item wins.
pub open spec fn last_named(items: Seq<Item>, name: Seq<char>) -> Option<int> {
    if exists|i: int| 0 <= i < items.len() && item_name(#[trigger] items[i]) == name {
        Some(choose|i: int| 0 <= i < items.len() && item_name(#[trigger] items[i]) == name
            && forall|k: int| i < k < items.len() ==> item_name(#[trigger] items[k]) != name)
    } else {
        None
    }
}

/// The item index an entry names, or the error for it.
pub open spec fn entry_index(e: OrderEntry, items: Seq<Item>) -> Result<int, Seq<char>> {
    match e {
        OrderEntry::Name(n) => match last_named(items, n@) {
            Some(i) => Ok(i),
            None => Err("no item found with name: "@ + n@),
        },
        OrderEntry::Index(Some(u)) => Ok((u as usize) as int),
        OrderEntry::Index(None) => Err("not a valid index"@),
        OrderEntry::Other => Err("only names (strings) or indices (numbers) are allowed"@),
    }
}

/// The outcome of reading the first `k` entries.
pub open spec fn order_prefix(entries: Seq<OrderEntry>, items: Seq<Item>, k: nat) -> OrderOutcome
    decreases k,
{
    if k == 0 {
        OrderOutcome::Order(Seq::empty())
    } else {
        match order_prefix(entries, items, (k - 1) as nat) {
            OrderOutcome::Order(o) => match entry_index(entries[k - 1], items) {
                Err(m) => OrderOutcome::Error(m),
                Ok(i) => if o.contains(i as usize) {
                    if i < items.len() {
                        OrderOutcome::Error("duplicate item defined in `item_order`; index="@ + decimal(i as nat)
                            + " and name="@ + item_name(items[i]))
                    } else {
                        OrderOutcome::Invalid
                    }
                } else {
                    OrderOutcome::Order(o.push(i as usize))
                },
            },
            other => other,
        }
    }
}

/// The length error of an `item_order` list.
pub open spec fn order_len_message(got: nat, count: nat) -> Seq<char> {
    "`item_order` must have the same length as `items`; got length="@ + decimal(got) + ", but item count="@
        + decimal(count)
}

/// Finds the last item named `name`.
fn find_last_named(items: &Vec<Item>, name: &str) -> (r: Option<usize>)
    ensures
        match last_named(items@, name@) {
            Some(i) => 0 <= i < items@.len() && r == Some(i as usize),
            None => r is None,
        },
{
    let mut i = items.len();
    while i > 0
        invariant
            i <= items@.len(),
            forall|k: int| i <= k < items@.len() ==> item_name(#[trigger] items@[k]) != name@,
        decreases i,
    {
        i = i - 1;
        let n = items[i].name();
        if str_eq(n.as_str(), name) {
            proof {
                let w = last_named(items@, name@).unwrap();
                assert(item_name(items@[i as int]) == name@);
                if w < i {
                    assert(item_name(items@[i as int]) != name@);
                } else if w > i {
                    assert(item_name(items@[w]) != name@);
                }
            }
            return Some(i);
        }
    }
    None
}

proof fn lemma_order_prefix_stops(entries: Seq<OrderEntry>, items: Seq<Item>, k: nat, n: nat)
    requires
        k <= n,
        order_prefix(entries, items, k) is Invalid,
    ensures
        order_prefix(entries, items, n) is Invalid,
    decreases n - k,
{
    if k < n {
        lemma_order_prefix_stops(entries, items, k + 1, n);
    }
}

proof fn lemma_order_prefix_error(entries: Seq<OrderEntry>, items: Seq<Item>, k: nat, n: nat)
    requires
        k <= n,
        order_prefix(entries, items, k) is Error,
    ensures
        order_prefix(entries, items, n) == order_prefix(entries, items, k),
    decreases n - k,
{
    if k < n {
        lemma_order_prefix_error(entries, items, k + 1, n);
    }
}

/// Every index that an `item_order` list gives is the place of an item.
pub open spec fn order_indices_in_range(entries: Seq<OrderEntry>, n: nat) -> bool {
    forall|k: int| 0 <= k < entries.len() ==> (#[trigger] entries[k] matches OrderEntry::Index(Some(u)) ==> (u as usize)
        < n)
}

proof fn lemma_named_last_exists(items: Seq<Item>, name: Seq<char>, j: int)
    requires
        0 <= j < items.len(),
        item_name(items[j]) == name,
    ensures
        exists|i: int| 0 <= i < items.len() && item_name(#[trigger] items[i]) == name
            && forall|k: int| i < k < items.len() ==> item_name(#[trigger] items[k]) != name,
    decreases items.len() - j,
{
    if exists|k: int| j < k < items.len() && item_name(#[trigger] items[k]) == name {
        let k = choose|k: int| j < k < items.len() && item_name(#[trigger] items[k]) == name;
        lemma_named_last_exists(items, name, k);
    } else {
        assert(forall|k: int| j < k < items.len() ==> item_name(#[trigger] items[k]) != name);
    }
}

proof fn lemma_last_named(items: Seq<Item>, name: Seq<char>)
    ensures
        last_named(items, name) matches Some(i) ==> 0 <= i < items.len() && item_name(items[i]) == name,
{
    if exists|i: int| 0 <= i < items.len() && item_name(#[trigger] items[i]) == name {
        let j = choose|i: int| 0 <= i < items.len() && item_name(#[trigger] items[i]) == name;
        lemma_named_last_exists(items, name, j);
    }
}

proof fn lemma_last_named_is_last(items: Seq<Item>, name: Seq<char>)
    ensures
        last_named(items, name) matches Some(i) ==> forall|m: int| i < m < items.len() ==> item_name(items[m]) != name,
{
    if exists|i: int| 0 <= i < items.len() && item_name(#[trigger] items[i]) == name {
        let j = choose|i: int| 0 <= i < items.len() && item_name(#[trigger] items[i]) == name;
        lemma_named_last_exists(items, name, j);
        let i = last_named(items, name)->0;
        assert forall|m: int| i < m < items.len() implies item_name(items[m]) != name by {
            assert(item_name(items[m]) != name);
        }
    }
}

/// The place an entry gives is an item's place, when every number given is.
proof fn lemma_entry_index_in_range(entries: Seq<OrderEntry>, items: Seq<Item>, k: int)
    requires
        0 <= k < entries.len(),
        order_indices_in_range(entries, items.len()),
    ensures
        entry_index(entries[k], items) matches Ok(i) ==> 0 <= i < items.len(),
{
    match entries[k] {
        OrderEntry::Name(n) => lemma_last_named(items, n@),
        _ => {},
    }
}

/// The place an entry gives fits a `usize`, and for a name it is an item's
/// place.
proof fn lemma_entry_index_bounds(entries: Seq<OrderEntry>, items: Seq<Item>, k: int)
    requires
        0 <= k < entries.len(),
        items.len() <= usize::MAX,
    ensures
        entry_index(entries[k], items) matches Ok(i) ==> 0 <= i <= usize::MAX,
        entries[k] is Name ==> (entry_index(entries[k], items) matches Ok(i) ==> i < items.len()),
{
    match entries[k] {
        OrderEntry::Name(n) => lemma_last_named(items, n@),
        _ => {},
    }
}

/// What a successful reading of the first `k` entries holds: the place each
/// entry gives, in order, each once.
#[verifier::rlimit(30)]
proof fn lemma_order_prefix_general(entries: Seq<OrderEntry>, items: Seq<Item>, k: nat, o: Seq<usize>)
    requires
        k <= entries.len(),
        items.len() <= usize::MAX,
        order_prefix(entries, items, k) == OrderOutcome::Order(o),
    ensures
        o.len() == k,
        forall|j: int| 0 <= j < k ==> entry_index(#[trigger] entries[j], items) == Ok::<int, Seq<char>>(o[j] as int),
        forall|a: int, b: int| 0 <= a < k && 0 <= b < k && a != b ==> #[trigger] o[a] != #[trigger] o[b],
    decreases k,
{
    if k > 0 {
        let prev = order_prefix(entries, items, (k - 1) as nat);
        if let OrderOutcome::Order(p) = prev {
            lemma_order_prefix_general(entries, items, (k - 1) as nat, p);
            lemma_entry_index_bounds(entries, items, k - 1);
            if let Ok(i) = entry_index(entries[k - 1], items) {
                assert(!p.contains(i as usize));
                assert(o == p.push(i as usize));
                assert forall|a: int, b: int| 0 <= a < k && 0 <= b < k && a != b implies #[trigger] o[a]
                    != #[trigger] o[b] by {
                    if a == k - 1 {
                        assert(p[b] == o[b]);
                    } else if b == k - 1 {
                        assert(p[a] == o[a]);
                    } else {
                        assert(p[a] == o[a] && p[b] == o[b]);
                    }
                }
                assert forall|j: int| 0 <= j < k implies entry_index(#[trigger] entries[j], items) == Ok::<
                    int,
                    Seq<char>,
                >(o[j] as int) by {
                    if j < k - 1 {
                        assert(p[j] == o[j]);
                    }
                }
            }
        }
    }
}

/// As [`lemma_order_prefix_general`], and every place is an item's when
/// every number given is.
proof fn lemma_order_prefix_entries(entries: Seq<OrderEntry>, items: Seq<Item>, k: nat, o: Seq<usize>)
    requires
        k <= entries.len(),
        items.len() <= usize::MAX,
        order_indices_in_range(entries, items.len()),
        order_prefix(entries, items, k) == OrderOutcome::Order(o),
    ensures
        o.len() == k,
        forall|j: int| 0 <= j < k ==> entry_index(#[trigger] entries[j], items) == Ok::<int, Seq<char>>(o[j] as int),
        forall|j: int| 0 <= j < k ==> #[trigger] o[j] < items.len(),
        forall|a: int, b: int| 0 <= a < k && 0 <= b < k && a != b ==> #[trigger] o[a] != #[trigger] o[b],
{
    lemma_order_prefix_general(entries, items, k, o);
    assert forall|j: int| 0 <= j < k implies #[trigger] o[j] < items.len() by {
        lemma_entry_index_in_range(entries, items, j);
        assert(entry_index(entries[j], items) == Ok::<int, Seq<char>>(o[j] as int));
    }
}

/// Reading an `item_order` list into an order `o` gives each entry's item
/// its place: a name gives the place of the last item with that name, a
/// number gives that place, and no place comes twice.
pub proof fn lemma_item_order_entries(entries: Seq<OrderEntry>, items: Seq<Item>, o: Seq<usize>)
    requires
        items.len() <= usize::MAX,
        order_prefix(entries, items, entries.len()) == OrderOutcome::Order(o),
    ensures
        o.len() == entries.len(),
        forall|k: int| 0 <= k < entries.len() ==> (#[trigger] entries[k] matches OrderEntry::Name(n) ==> o[k]
            < items.len() && item_name(items[o[k] as int]) == n@ && forall|m: int| o[k] < m < items.len()
            ==> item_name(items[m]) != n@),
        forall|k: int| 0 <= k < entries.len() ==> (#[trigger] entries[k] matches OrderEntry::Index(Some(j)) ==> o[k]
            == j as usize),
        forall|a: int, b: int| 0 <= a < o.len() && 0 <= b < o.len() && a != b ==> o[a] != o[b],
{
    lemma_order_prefix_general(entries, items, entries.len(), o);
    assert forall|k: int| 0 <= k < entries.len() implies (#[trigger] entries[k] matches OrderEntry::Name(n) ==> o[k]
        < items.len() && item_name(items[o[k] as int]) == n@ && forall|m: int| o[k] < m < items.len()
        ==> item_name(items[m]) != n@) by {
        assert(entry_index(entries[k], items) == Ok::<int, Seq<char>>(o[k] as int));
        if let OrderEntry::Name(n) = entries[k] {
            lemma_last_named(items, n@);
            lemma_last_named_is_last(items, n@);
        }
    }
    assert forall|k: int| 0 <= k < entries.len() implies (#[trigger] entries[k] matches OrderEntry::Index(Some(j))
        ==> o[k] == j as usize) by {
        assert(entry_index(entries[k], items) == Ok::<int, Seq<char>>(o[k] as int));
    }
}

/// A list that gives only items' places never reaches the case where a
/// duplicate cannot be named.
proof fn lemma_order_never_invalid(entries: Seq<OrderEntry>, items: Seq<Item>, k: nat)
    requires
        k <= entries.len(),
        items.len() <= usize::MAX,
        order_indices_in_range(entries, items.len()),
    ensures
        !(order_prefix(entries, items, k) is Invalid),
    decreases k,
{
    if k > 0 {
        lemma_order_never_invalid(entries, items, (k - 1) as nat);
        if let OrderOutcome::Order(p) = order_prefix(entries, items, (k - 1) as nat) {
            lemma_entry_index_in_range(entries, items, k - 1);
        }
    }
}

/// Once an `item_order` list that gives only items' places is read, it
/// orders every item exactly once, and the item at place `k` afterwards is
/// the one entry `k` gives: the last item with that name for a name, the item
/// at that place for a number. `sorted` is the items rearranged by the order
/// (as [`sort_by_indices`] leaves them); its names, by place, are what
/// [`AppConfig::item_idx_to_name`] then lists.
pub proof fn lemma_item_order_applied(entries: Seq<OrderEntry>, items: Seq<Item>, o: Seq<usize>, sorted: Seq<Item>)
    requires
        entries.len() == items.len(),
        items.len() <= usize::MAX,
        order_indices_in_range(entries, items.len()),
        order_prefix(entries, items, entries.len()) == OrderOutcome::Order(o),
        sorted.len() == items.len(),
        forall|j: int| 0 <= j < o.len() ==> sorted[j] == items[#[trigger] o[j] as int],
    ensures
        is_permutation(o, items.len()),
        forall|k: int| 0 <= k < entries.len() ==> entry_index(#[trigger] entries[k], items) == Ok::<int, Seq<char>>(
            o[k] as int,
        ),
        forall|k: int| 0 <= k < entries.len() ==> (#[trigger] entries[k] matches OrderEntry::Name(n) ==> item_name(
            sorted[k],
        ) == n@),
        forall|k: int| 0 <= k < entries.len() ==> (#[trigger] entries[k] matches OrderEntry::Index(Some(u)) ==> sorted[k]
            == items[(u as usize) as int]),
{
    lemma_order_prefix_entries(entries, items, entries.len(), o);
    assert forall|k: int| 0 <= k < entries.len() implies (#[trigger] entries[k] matches OrderEntry::Name(n) ==> item_name(
        sorted[k],
    ) == n@) by {
        assert(entry_index(entries[k], items) == Ok::<int, Seq<char>>(o[k] as int));
        match entries[k] {
            OrderEntry::Name(n) => {
                lemma_last_named(items, n@);
                assert(sorted[k] == items[o[k] as int]);
            },
            _ => {},
        }
    }
    assert forall|k: int| 0 <= k < entries.len() implies (#[trigger] entries[k] matches OrderEntry::Index(Some(u))
        ==> sorted[k] == items[(u as usize) as int]) by {
        assert(entry_index(entries[k], items) == Ok::<int, Seq<char>>(o[k] as int));
        assert(sorted[k] == items[o[k] as int]);
    }
}

/// The configuration of the bar.
#[derive(Debug, Clone)]
pub struct AppConfig {
    /// Other configuration files to include.
    pub includes: Vec<String>,
    /// The colours of the bar.
    pub theme: Theme,
    /// The items of the bar, left to right.
    pub items: Vec<Item>,
    /// The path of the IPC socket, once resolved.
    pub socket: Option<String>,
}

impl AppConfig {
    /// The name of each item, by its place.
    pub fn item_idx_to_name(&self) -> (r: Vec<(usize, String)>)
        ensures
            r@.len() == self.items@.len(),
            forall|i: int| 0 <= i < r@.len() ==> (#[trigger] r@[i]).0 == i && r@[i].1@ == item_name(self.items@[i]),
    {
        let mut r: Vec<(usize, String)> = Vec::new();
        let mut i: usize = 0;
        while i < self.items.len()
            invariant
                i <= self.items@.len(),
                r@.len() == i,
                forall|k: int| 0 <= k < i ==> (#[trigger] r@[k]).0 == k && r@[k].1@ == item_name(self.items@[k]),
            decreases self.items@.len() - i,
        {
            let name = self.items[i].name();
            r.push((i, name));
            i = i + 1;
        }
        r
    }

    /// The path of the IPC socket.
    pub fn socket(&self) -> (r: String)
        requires
            self.socket is Some,
        ensures
            r@ == self.socket.unwrap()@,
    {
        match &self.socket {
            Some(s) => s.clone(),
            None => String::new(),
        }
    }

    /// The order of items whose `index` settings are `targets`: entry `j`
    /// is the configured place of the item that goes to place `j`.
    pub fn item_order_of(targets: &Vec<Option<usize>>) -> (r: Vec<usize>)
        ensures
            r@ == item_order(targets@, targets@.len()),
            is_permutation(r@, targets@.len()),
    {
        let len = targets.len();
        let max: usize = if len == 0 { 0 } else { len - 1 };
        let mut order: Vec<usize> = Vec::new();
        let mut i: usize = 0;
        while i < len
            invariant
                i <= len,
                len == targets@.len(),
                order@ =~= Seq::new(i as nat, |k: int| k as usize),
            decreases len - i,
        {
            order.push(i);
            i = i + 1;
        }
        assert(order@ == item_order(targets@, 0));
        proof {
            lemma_item_order_permutation(targets@, 0);
        }
        let mut cur: usize = 0;
        while cur < len
            invariant
                cur <= len,
                len == targets@.len(),
                max == if len == 0 { 0 } else { len - 1 },
                order@ == item_order(targets@, cur as nat),
                is_permutation(order@, len as nat),
            decreases len - cur,
        {
            proof {
                lemma_item_order_permutation(targets@, (cur + 1) as nat);
            }
            match targets[cur] {
                Some(t) => {
                    let idx = order.remove(cur);
                    let p = if t > max { max } else { t };
                    order.insert(p, idx);
                },
                None => {},
            }
            cur = cur + 1;
        }
        order
    }

    /// The places of the items that the real-time signal `sig` refreshes:
    /// every item configured with it, in order.
    pub fn signal_targets(&self, sig: u32) -> (r: Vec<usize>)
        ensures
            forall|k: int| 0 <= k < r@.len() ==> #[trigger] r@[k] < self.items@.len()
                && self.items@[r@[k] as int].common.signal == Some(sig),
            forall|i: int| 0 <= i < self.items@.len() && self.items@[i].common.signal == Some(sig) ==> r@.contains(i as usize),
            forall|a: int, b: int| 0 <= a < b < r@.len() ==> r@[a] < r@[b],
    {
        let mut r: Vec<usize> = Vec::new();
        let mut i: usize = 0;
        while i < self.items.len()
            invariant
                i <= self.items@.len(),
                forall|k: int| 0 <= k < r@.len() ==> #[trigger] r@[k] < i && self.items@[r@[k] as int].common.signal == Some(sig),
                forall|j: int| 0 <= j < i && self.items@[j].common.signal == Some(sig) ==> r@.contains(j as usize),
                forall|a: int, b: int| 0 <= a < b < r@.len() ==> r@[a] < r@[b],
            decreases self.items@.len() - i,
        {
            let ghost prev = r@;
            if self.items[i].common.signal == Some(sig) {
                r.push(i);
            }
            proof {
                assert forall|j: int| 0 <= j < i + 1 && self.items@[j].common.signal == Some(sig) implies r@.contains(j as usize) by {
                    if j < i {
                        assert(prev.contains(j as usize));
                        let w = choose|w: int| 0 <= w < prev.len() && prev[w] == j as usize;
                        assert(r@[w] == j as usize);
                    } else {
                        assert(r@[r@.len() - 1] == i);
                    }
                }
            }
            i = i + 1;
        }
        r
    }

    /// Moves each item that asks for a place (its `index`) there, taking the
    /// items in their configured order; a place past the end means the last.
    pub fn sort(items: &mut Vec<Item>)
        ensures
            final(items)@.len() == old(items)@.len(),
            forall|j: int| 0 <= j < old(items)@.len() ==> #[trigger] final(items)@[j]
                == old(items)@[item_order(index_targets(old(items)@), old(items)@.len())[j] as int],
    {
        let mut targets: Vec<Option<usize>> = Vec::new();
        let mut i: usize = 0;
        while i < items.len()
            invariant
                i <= items@.len(),
                targets@ =~= index_targets(items@).take(i as int),
            decreases items@.len() - i,
        {
            targets.push(items[i].common.index);
            i = i + 1;
        }
        assert(targets@ =~= index_targets(items@));
        let order = Self::item_order_of(&targets);
        sort_by_indices(items, order);
    }

    /// Reads an explicit `item_order` list (names or indices of the items, one
    /// per item) into the order of the items.
    pub fn resolve_item_order(entries: &Vec<OrderEntry>, items: &Vec<Item>) -> (r: Result<Vec<usize>, String>)
        requires
            entries@.len() == items@.len() ==> !(order_prefix(entries@, items@, entries@.len()) is Invalid),
        ensures
            entries@.len() != items@.len() ==> (r matches Err(e) && e@ == order_len_message(
                entries@.len(),
                items@.len(),
            )),
            entries@.len() == items@.len() ==> match order_prefix(entries@, items@, entries@.len()) {
                OrderOutcome::Order(o) => r matches Ok(v) && v@ == o,
                OrderOutcome::Error(m) => r matches Err(e) && e@ == m,
                OrderOutcome::Invalid => false,
            },
    {
        if entries.len() != items.len() {
            let mut e = String::from_str("`item_order` must have the same length as `items`; got length=");
            let a = u64_to_decimal(entries.len() as u64);
            e.append(a.as_str());
            e.append(", but item count=");
            let b = u64_to_decimal(items.len() as u64);
            e.append(b.as_str());
            return Err(e);
        }
        let mut order: Vec<usize> = Vec::new();
        let mut k: usize = 0;
        while k < entries.len()
            invariant
                k <= entries@.len(),
                entries@.len() == items@.len(),
                !(order_prefix(entries@, items@, entries@.len()) is Invalid),
                order_prefix(entries@, items@, k as nat) == OrderOutcome::Order(order@),
            decreases entries@.len() - k,
        {
            let idx: usize = match &entries[k] {
                OrderEntry::Name(n) => match find_last_named(items, n.as_str()) {
                    Some(i) => i,
                    None => {
                        let mut e = String::from_str("no item found with name: ");
                        e.append(n.as_str());
                        proof {
                            lemma_order_prefix_error(entries@, items@, (k + 1) as nat, entries@.len());
                        }
                        return Err(e);
                    },
                },
                OrderEntry::Index(Some(u)) => *u as usize,
                OrderEntry::Index(None) => {
                    proof {
                        lemma_order_prefix_error(entries@, items@, (k + 1) as nat, entries@.len());
                    }
                    return Err(String::from_str("not a valid index"));
                },
                OrderEntry::Other => {
                    proof {
                        lemma_order_prefix_error(entries@, items@, (k + 1) as nat, entries@.len());
                    }
                    return Err(String::from_str("only names (strings) or indices (numbers) are allowed"));
                },
            };
            assert(entry_index(entries@[k as int], items@) == Ok::<int, Seq<char>>(idx as int));
            let mut dup = false;
            let mut j: usize = 0;
            while j < order.len()
                invariant
                    j <= order@.len(),
                    dup == exists|q: int| 0 <= q < j && order@[q] == idx,
                decreases order@.len() - j,
            {
                if order[j] == idx {
                    dup = true;
                }
                j = j + 1;
            }
            if dup {
                proof {
                    assert(order@.contains(idx));
                    if idx >= items@.len() {
                        lemma_order_prefix_stops(entries@, items@, (k + 1) as nat, entries@.len());
                    }
                    lemma_order_prefix_error(entries@, items@, (k + 1) as nat, entries@.len());
                }
                let mut e = String::from_str("duplicate item defined in `item_order`; index=");
                let a = u64_to_decimal(idx as u64);
                e.append(a.as_str());
                e.append(" and name=");
                let n = items[idx].name();
                e.append(n.as_str());
                return Err(e);
            }
            proof {
                assert(!order@.contains(idx));
            }
            order.push(idx);
            k = k + 1;
        }
        Ok(order)
    }

    /// Puts the items in the order of an explicit `item_order` list (names or
    /// places of the items, one per item) and returns that order: the item
    /// at place `k` afterwards is the one entry `k` gives. On an error the
    /// items are left as they were.
    pub fn apply_item_order(items: &mut Vec<Item>, entries: &Vec<OrderEntry>) -> (r: Result<Vec<usize>, String>)
        requires
            order_indices_in_range(entries@, old(items)@.len()),
        ensures
            entries@.len() != old(items)@.len() ==> (r matches Err(e) && e@ == order_len_message(
                entries@.len(),
                old(items)@.len(),
            )) && final(items)@ == old(items)@,
            entries@.len() == old(items)@.len() ==> match order_prefix(entries@, old(items)@, entries@.len()) {
                OrderOutcome::Order(o) => r matches Ok(v) && v@ == o && is_permutation(o, old(items)@.len())
                    && final(items)@.len() == old(items)@.len() && forall|k: int| 0 <= k < o.len()
                    ==> final(items)@[k] == old(items)@[#[trigger] o[k] as int],
                OrderOutcome::Error(m) => (r matches Err(e) && e@ == m) && final(items)@ == old(items)@,
                OrderOutcome::Invalid => false,
            },
    {
        let n = items.len();
        proof {
            if entries@.len() == n {
                lemma_order_never_invalid(entries@, items@, entries@.len());
            }
        }
        let order = match Self::resolve_item_order(entries, items) {
            Ok(o) => o,
            Err(e) => return Err(e),
        };
        proof {
            lemma_order_prefix_entries(entries@, items@, entries@.len(), order@);
        }
        let copy = order.clone();
        sort_by_indices(items, copy);
        Ok(order)
    }

    /// Checks that no two items are configured with the same name.
    pub fn validate_names(items: &[Item]) -> (r: Result<(), String>)
        ensures
            r is Ok <==> forall|i: int, j: int| !#[trigger] names_clash(items@, i, j),
            r matches Err(e) ==> exists|i: int, j: int| #[trigger] reported_clash(items@, i, j)
                && match items@[i].common.name {
                    Some(n) => e@ == clash_message(i as nat, j as nat, n@),
                    None => false,
                },
    {
        let n = items.len();
        let mut i = n;
        while i > 0
            invariant
                i <= n,
                n == items@.len(),
                forall|a: int, b: int| i <= a < n ==> !#[trigger] names_clash(items@, a, b),
            decreases i,
        {
            i = i - 1;
            let mut j: usize = 0;
            while j < n
                invariant
                    i < n,
                    j <= n,
                    n == items@.len(),
                    forall|a: int, b: int| i < a < n ==> !#[trigger] names_clash(items@, a, b),
                    forall|b: int| 0 <= b < j ==> !#[trigger] names_clash(items@, i as int, b),
                decreases n - j,
            {
                if i != j {
                    match (&items[i].common.name, &items[j].common.name) {
                        (Some(a), Some(b)) => {
                            if str_eq(a.as_str(), b.as_str()) {
                                assert(names_clash(items@, i as int, j as int));
                                assert(reported_clash(items@, i as int, j as int));
                                let mut e = String::from_str("item names must be unique, item[");
                                let si = u64_to_decimal(i as u64);
                                e.append(si.as_str());
                                e.append("] and item[");
                                let sj = u64_to_decimal(j as u64);
                                e.append(sj.as_str());
                                e.append("] share the same name: ");
                                e.append(a.as_str());
                                return Err(e);
                            }
                        },
                        _ => {},
                    }
                }
                j = j + 1;
            }
        }
        Ok(())
    }

    /// Puts the items in their configured places, then checks that names are
    /// unique and that the theme is usable.
    pub fn validate(&mut self) -> (r: Result<(), String>)
        ensures
            final(self).items@.len() == old(self).items@.len(),
            forall|j: int| 0 <= j < old(self).items@.len() ==> #[trigger] final(self).items@[j]
                == old(self).items@[item_order(index_targets(old(self).items@), old(self).items@.len())[j] as int],
            final(self).theme == old(self).theme,
            final(self).includes == old(self).includes,
            final(self).socket == old(self).socket,
            r is Ok <==> (forall|i: int, j: int| !#[trigger] names_clash(final(self).items@, i, j))
                && old(self).theme.powerline@.len() > 1,
            r matches Err(e) ==> (exists|i: int, j: int| #[trigger] reported_clash(final(self).items@, i, j)
                && match final(self).items@[i].common.name {
                    Some(n) => e@ == clash_message(i as nat, j as nat, n@),
                    None => false,
                })
                || ((forall|i: int, j: int| !#[trigger] names_clash(final(self).items@, i, j))
                    && e@ == "theme.powerline must contain at least two values"@),
    {
        Self::sort(&mut self.items);
        match Self::validate_names(self.items.as_slice()) {
            Ok(()) => {},
            Err(e) => return Err(e),
        }
        self.theme.validate()
    }
}

} // verus!
