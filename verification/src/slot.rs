//! Hand-over cells: a value parked by one part of the app and collected once
//! by another (a pending chat, a pending link, a pending download name), and a
//! write-once cell for the link the process was launched with.

use vstd::prelude::*;
use crate::links::opt_str_view;

verus! {

/// A string waiting to be collected. Collecting it empties the slot.
pub struct Slot {
    value: Option<String>,
}

impl View for Slot {
    type V = Option<Seq<char>>;

    closed spec fn view(&self) -> Option<Seq<char>> {
        opt_str_view(self.value)
    }
}

/// The contents of a slot after `value` is parked in it.
pub open spec fn slot_after_put(slot: Option<Seq<char>>, value: Option<Seq<char>>) -> Option<Seq<char>> {
    value
}

/// What collecting from a slot hands out.
pub open spec fn slot_taken(slot: Option<Seq<char>>) -> Option<Seq<char>> {
    slot
}

/// The contents of a slot after it has been collected from.
pub open spec fn slot_after_take(slot: Option<Seq<char>>) -> Option<Seq<char>> {
    None
}

impl Slot {
    /// An empty slot.
    pub fn new() -> (s: Slot)
        ensures
            s@ is None,
    {
        Slot { value: None }
    }

    /// Replace whatever the slot holds with `value`.
    pub fn put(&mut self, value: Option<String>)
        ensures
            final(self)@ == slot_after_put(old(self)@, opt_str_view(value)),
    {
        self.value = value;
    }

    /// Hand out what the slot holds and leave it empty.
    pub fn take(&mut self) -> (r: Option<String>)
        ensures
            opt_str_view(r) == slot_taken(old(self)@),
            final(self)@ == slot_after_take(old(self)@),
    {
        let r = self.value.take();
        r
    }
}

/// A cell that keeps the first value stored in it; later stores are ignored.
pub struct OnceCell {
    value: Option<Option<String>>,
}

impl View for OnceCell {
    type V = Option<Option<Seq<char>>>;

    closed spec fn view(&self) -> Option<Option<Seq<char>>> {
        match self.value {
            Some(v) => Some(opt_str_view(v)),
            None => None,
        }
    }
}

/// The state of a write-once cell after a store of `value`.
pub open spec fn once_after_set(
    cell: Option<Option<Seq<char>>>,
    value: Option<Seq<char>>,
) -> Option<Option<Seq<char>>> {
    match cell {
        Some(v) => Some(v),
        None => Some(value),
    }
}

impl OnceCell {
    /// A cell that holds nothing yet.
    pub fn new() -> (c: OnceCell)
        ensures
            c@ is None,
    {
        OnceCell { value: None }
    }

    /// Store `value` unless the cell was already set; reports whether it was stored.
    pub fn set(&mut self, value: Option<String>) -> (stored: bool)
        ensures
            final(self)@ == once_after_set(old(self)@, opt_str_view(value)),
            stored == (old(self)@ is None),
    {
        if self.value.is_some() {
            false
        } else {
            self.value = Some(value);
            true
        }
    }

    /// The stored string, if the cell was set to one.
    pub fn get(&self) -> (r: Option<&str>)
        ensures
            match r { Some(s) => Some(s@), None => None::<Seq<char>> } == match self@ {
                Some(Some(s)) => Some(s),
                _ => None,
            },
    {
        match &self.value {
            Some(Some(s)) => Some(s.as_str()),
            _ => None,
        }
    }
}

/// Law: a value parked in a slot is what the next collection hands out, and
/// the collection after that finds the slot empty.
pub proof fn law_take_returns_put(slot: Option<Seq<char>>, value: Option<Seq<char>>)
    ensures
        slot_taken(slot_after_put(slot, value)) == value,
        slot_taken(slot_after_take(slot_after_put(slot, value))) is None,
{
}

/// Law: the first store into a write-once cell wins; every later store leaves
/// the cell as it was.
pub proof fn law_first_set_wins(first: Option<Seq<char>>, later: Option<Seq<char>>)
    ensures
        once_after_set(once_after_set(None, first), later) == Some(first),
{
}

} // verus!
