//! The box of widgets, kept by numeric id from one frame to the next.
pub mod widgets;

use vstd::prelude::*;
use std::collections::HashMap;

verus! {

broadcast use vstd::std_specs::hash::group_hash_axioms;

/// What the box holds under `id`: the widget, if one is there.
pub open spec fn widget_at<W>(m: Map<u64, Option<W>>, id: u64) -> Option<W> {
    if m.contains_key(id) { m[id] } else { None }
}

/// Calls `HashMap::get_mut`: the value under `k`, to be changed in place.
#[verifier::external_body]
fn map_get_mut<W>(m: &mut HashMap<u64, Option<W>>, k: u64) -> (r: Option<&mut Option<W>>)
    ensures
        old(m)@.contains_key(k) ==> r is Some && *r->0 == old(m)@[k]
            && final(m)@ == old(m)@.insert(k, *final(r->0)),
        !old(m)@.contains_key(k) ==> r is None && final(m)@ == old(m)@,
{
    m.get_mut(&k)
}

/// Widgets of type `W`, kept by id.
pub struct UiBox<W> {
    widgets: HashMap<u64, Option<W>>,
}

impl<W> View for UiBox<W> {
    type V = Map<u64, Option<W>>;

    closed spec fn view(&self) -> Map<u64, Option<W>> {
        self.widgets@
    }
}

impl<W> UiBox<W> {
    /// An empty box.
    pub fn new() -> (b: UiBox<W>)
        ensures
            b@ == Map::<u64, Option<W>>::empty(),
    {
        UiBox { widgets: HashMap::new() }
    }

    /// Puts `widget` under `id`; returns the widget that was there.
    pub fn insert(&mut self, id: u64, widget: W) -> (r: Option<W>)
        ensures
            final(self)@ == old(self)@.insert(id, Some(widget)),
            r == widget_at(old(self)@, id),
    {
        match self.widgets.insert(id, Some(widget)) {
            Some(Some(w)) => Some(w),
            _ => None,
        }
    }

    /// The widget under `id`.
    pub fn get(&self, id: u64) -> (r: Option<&W>)
        ensures
            match r {
                Some(w) => widget_at(self@, id) == Some(*w),
                None => widget_at(self@, id) is None,
            },
    {
        match self.widgets.get(&id) {
            Some(Some(w)) => Some(w),
            _ => None,
        }
    }

    /// The widget under `id`, to be changed in place.
    pub fn get_mut(&mut self, id: u64) -> (r: Option<&mut W>)
        ensures
            match widget_at(old(self)@, id) {
                Some(w) => r is Some && *r->0 == w && final(self)@ == old(self)@.insert(id, Some(*final(r->0))),
                None => r is None && final(self)@ == old(self)@,
            },
    {
        match map_get_mut(&mut self.widgets, id) {
            Some(slot) => match slot {
                Some(w) => Some(w),
                None => None,
            },
            None => None,
        }
    }

    /// Takes the widget under `id` out of the box.
    pub fn remove(&mut self, id: u64) -> (r: Option<W>)
        ensures
            final(self)@ == old(self)@.remove(id),
            r == widget_at(old(self)@, id),
    {
        match self.widgets.remove(&id) {
            Some(w) => w,
            None => None,
        }
    }

    /// Whether an entry is kept under `id`.
    pub fn contains(&self, id: u64) -> (r: bool)
        ensures
            r == self@.contains_key(id),
    {
        self.widgets.contains_key(&id)
    }
}

/// What is put in the box under an id is what is read back under it, and
/// what is taken out under it; other ids are not touched.
pub proof fn law_box_read_after_write<W>(m: Map<u64, Option<W>>, id: u64, other: u64, w: W)
    requires
        other != id,
    ensures
        widget_at(m.insert(id, Some(w)), id) == Some(w),
        m.insert(id, Some(w)).contains_key(id),
        widget_at(m.insert(id, Some(w)), other) == widget_at(m, other),
        !m.insert(id, Some(w)).remove(id).contains_key(id),
        widget_at(m.insert(id, Some(w)).remove(id), other) == widget_at(m, other),
{
}

} // verus!
