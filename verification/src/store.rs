//! The record store: handles and the records under them.
use vstd::prelude::*;
use crate::record::{Handle, Record, Slots, live, the_view, view_at};

verus! {

/// What a handle names at the moment it is looked up.
#[derive(Clone, Copy, Debug, PartialEq, Eq, Structural)]
pub enum Lookup {
    /// A record exists under the handle.
    Live,
    /// The handle was handed out, and no record is under it (any more).
    Stale,
    /// The store never handed this handle out: the caller made it up.
    Unallocated,
}

/// The record store: an arena whose slots are never reused.
#[derive(Debug)]
pub struct Store {
    pub slots: Vec<Option<Record>>,
}

impl View for Store {
    type V = Slots;

    open spec fn view(&self) -> Slots {
        self.slots@
    }
}

pub open spec fn lookup_of(s: Slots, h: int) -> Lookup {
    if h < 0 || h >= s.len() {
        Lookup::Unallocated
    } else if s[h].is_some() {
        Lookup::Live
    } else {
        Lookup::Stale
    }
}

/// The handles among the first `n` of the views that mirror the model under
/// `m`, in increasing order.
pub open spec fn views_of(s: Slots, m: Handle, n: nat) -> Seq<Handle>
    decreases n,
{
    if n == 0 {
        Seq::empty()
    } else {
        let k = n - 1;
        let before = views_of(s, m, k as nat);
        if view_at(s, k) && the_view(s, k).model == m {
            before.push(k as Handle)
        } else {
            before
        }
    }
}

impl Store {
    /// The handles of the views that mirror the model under `m`, in
    /// increasing order.
    pub fn views_of(&self, m: Handle) -> (views: Vec<Handle>)
        ensures
            views@ == views_of(self@, m, self@.len()),
    {
        let mut views: Vec<Handle> = Vec::new();
        let n = self.slots.len();
        let mut i: usize = 0;
        while i < n
            invariant
                0 <= i <= n,
                n == self@.len(),
                views@ == views_of(self@, m, i as nat),
            decreases n - i,
        {
            let mirrors = match &self.slots[i] {
                Some(Record::View(view)) => view.model == m,
                _ => false,
            };
            if mirrors {
                views.push(i);
            }
            i = i + 1;
        }
        views
    }

    pub fn new() -> (store: Store)
        ensures
            store@ == Slots::empty(),
    {
        Store { slots: Vec::new() }
    }

    /// The number of handles handed out so far.
    pub fn len(&self) -> (n: usize)
        ensures
            n == self@.len(),
    {
        self.slots.len()
    }

    /// Hands out a handle that carries no record, for something that lives
    /// outside the store and still needs a name in it.
    pub fn reserve(&mut self) -> (h: Handle)
        ensures
            h == old(self)@.len(),
            final(self)@ == old(self)@.push(None),
    {
        let h = self.slots.len();
        self.slots.push(None);
        h
    }

    /// Stores `record` under a handle that was never used before.
    pub fn insert(&mut self, record: Record) -> (h: Handle)
        ensures
            h == old(self)@.len(),
            final(self)@ == old(self)@.push(Some(record)),
    {
        let h = self.slots.len();
        self.slots.push(Some(record));
        h
    }

    /// Removes the record under `h`, if there is one, and says whether there was.
    pub fn destroy(&mut self, h: Handle) -> (found: bool)
        ensures
            found == live(old(self)@, h as int),
            found ==> final(self)@ == old(self)@.update(h as int, None),
            !found ==> final(self)@ == old(self)@,
    {
        if h < self.slots.len() && self.slots[h].is_some() {
            self.slots[h] = None;
            true
        } else {
            false
        }
    }

    pub fn status(&self, h: Handle) -> (l: Lookup)
        ensures
            l == lookup_of(self@, h as int),
    {
        if h >= self.slots.len() {
            Lookup::Unallocated
        } else if self.slots[h].is_some() {
            Lookup::Live
        } else {
            Lookup::Stale
        }
    }

    /// Replaces the record under a live handle.
    pub fn put(&mut self, h: Handle, record: Record)
        requires
            live(old(self)@, h as int),
        ensures
            final(self)@ == old(self)@.update(h as int, Some(record)),
    {
        self.slots[h] = Some(record);
    }

    /// The record under `h`, or `None` where the handle is stale or made up.
    pub fn get(&self, h: Handle) -> (r: Option<&Record>)
        ensures
            r.is_some() == live(self@, h as int),
            r.is_some() ==> *r.unwrap() == self@[h as int]->0,
    {
        if h < self.slots.len() {
            self.slots[h].as_ref()
        } else {
            None
        }
    }
}

} // verus!
