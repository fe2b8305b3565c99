//! Routing of events to the bar's items: one optional sender per item, and
//! one handle to ask the bar for a redraw.

use vstd::prelude::*;

use crate::text::{decimal, u64_to_decimal};

verus! {

/// Why an event could not be handed to an item.
#[derive(Debug, Clone, Copy, PartialEq, Eq, Structural)]
pub enum SendFailure {
    /// The item does not read its events; its queue is full.
    ChannelFull,
    /// The item has stopped.
    ReceiverDropped,
}

/// The message for an event that item `idx` did not get.
pub open spec fn send_failure_text(idx: nat, f: SendFailure) -> Seq<char> {
    "failed to send event to item["@ + decimal(idx) + "]: dropping event ("@ + match f {
        SendFailure::ChannelFull => "channel is full"@,
        SendFailure::ReceiverDropped => "receiver dropped"@,
    } + ")"@
}

impl SendFailure {
    pub fn message(&self, idx: usize) -> (r: String)
        ensures
            r@ == send_failure_text(idx as nat, *self),
    {
        let mut r = String::from_str("failed to send event to item[");
        let n = u64_to_decimal(idx as u64);
        r.append(n.as_str());
        r.append("]: dropping event (");
        match self {
            SendFailure::ChannelFull => r.append("channel is full"),
            SendFailure::ReceiverDropped => r.append("receiver dropped"),
        }
        r.append(")");
        r
    }
}

/// The message for an event sent to an item that does not exist or runs no
/// more.
pub open spec fn no_item_text(idx: nat) -> Seq<char> {
    "no item found with index: "@ + decimal(idx)
}

/// Holds the event sender of each running item (by its place in the bar) and
/// the handle that asks the bar for a redraw.
#[derive(Debug, Clone)]
pub struct Dispatcher<S, U> {
    bar_senders: Vec<Option<S>>,
    bar_updater: U,
}

impl<S, U> Dispatcher<S, U> {
    /// The sender of each item, by place.
    pub closed spec fn senders(&self) -> Seq<Option<S>> {
        self.bar_senders@
    }

    /// The redraw handle.
    pub closed spec fn updater(&self) -> U {
        self.bar_updater
    }

    /// A dispatcher for `capacity` items, none of them running yet.
    pub fn new(bar_updater: U, capacity: usize) -> (d: Dispatcher<S, U>)
        ensures
            d.senders().len() == capacity,
            forall|i: int| 0 <= i < capacity ==> d.senders()[i] is None,
            d.updater() == bar_updater,
    {
        let mut bar_senders: Vec<Option<S>> = Vec::new();
        let mut i: usize = 0;
        while i < capacity
            invariant
                i <= capacity,
                bar_senders@.len() == i,
                forall|k: int| 0 <= k < i ==> bar_senders@[k] is None,
            decreases capacity - i,
        {
            bar_senders.push(None);
            i = i + 1;
        }
        Dispatcher { bar_senders, bar_updater }
    }

    /// Forgets the sender of item `idx` (it stopped).
    pub fn remove(&mut self, idx: usize)
        requires
            idx < old(self).senders().len(),
        ensures
            final(self).senders() == old(self).senders().update(idx as int, None),
            final(self).updater() == old(self).updater(),
    {
        self.bar_senders.set(idx, None);
    }

    /// Records the sender of item `idx`.
    pub fn set(&mut self, idx: usize, tx: S)
        requires
            idx < old(self).senders().len(),
        ensures
            final(self).senders() == old(self).senders().update(idx as int, Some(tx)),
            final(self).updater() == old(self).updater(),
    {
        self.bar_senders.set(idx, Some(tx));
    }

    /// The handle that asks the bar for a redraw.
    pub fn bar_updater(&self) -> (r: &U)
        ensures
            *r == self.updater(),
    {
        &self.bar_updater
    }

    /// The sender of item `idx`, or the error for an item that does not
    /// exist or runs no more.
    pub fn sender(&self, idx: usize) -> (r: Result<&S, String>)
        ensures
            idx < self.senders().len() && self.senders()[idx as int] is Some ==> r == Ok::<&S, String>(
                &self.senders()[idx as int]->0,
            ),
            !(idx < self.senders().len() && self.senders()[idx as int] is Some) ==> (r matches Err(e)
                && e@ == no_item_text(idx as nat)),
    {
        if idx < self.bar_senders.len() {
            match &self.bar_senders[idx] {
                Some(tx) => return Ok(tx),
                None => {},
            }
        }
        let mut e = String::from_str("no item found with index: ");
        let n = u64_to_decimal(idx as u64);
        e.append(n.as_str());
        Err(e)
    }

    /// The places of the running items, in order.
    pub fn active_indices(&self) -> (r: Vec<usize>)
        ensures
            forall|k: int| 0 <= k < r@.len() ==> #[trigger] r@[k] < self.senders().len() && self.senders()[r@[k] as int] is Some,
            forall|i: int| 0 <= i < self.senders().len() && self.senders()[i] is Some ==> r@.contains(i as usize),
            forall|a: int, b: int| 0 <= a < b < r@.len() ==> r@[a] < r@[b],
    {
        let mut r: Vec<usize> = Vec::new();
        let mut i: usize = 0;
        while i < self.bar_senders.len()
            invariant
                i <= self.bar_senders@.len(),
                forall|k: int| 0 <= k < r@.len() ==> #[trigger] r@[k] < i && self.bar_senders@[r@[k] as int] is Some,
                forall|j: int| 0 <= j < i && self.bar_senders@[j] is Some ==> r@.contains(j as usize),
                forall|a: int, b: int| 0 <= a < b < r@.len() ==> r@[a] < r@[b],
            decreases self.bar_senders@.len() - i,
        {
            let ghost prev = r@;
            if self.bar_senders[i].is_some() {
                r.push(i);
            }
            proof {
                assert forall|j: int| 0 <= j < i + 1 && self.bar_senders@[j] is Some implies r@.contains(j as usize) by {
                    if j < i {
                        assert(prev.contains(j as usize));
                        let w = choose|w: int| 0 <= w < prev.len() && prev[w] == j as usize;
                        assert(r@[w] == j as usize);
                    } else {
                        assert(r@[r@.len() - 1] == i);
                    }
                }
            }
            i = i + 1;
        }
        r
    }
}

} // verus!
