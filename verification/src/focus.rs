//! The focus coordinator: one focus, and at most one editable view.
use vstd::prelude::*;
use crate::effect::Effect;
use crate::record::{
    Handle, Record, Role, Slots, ViewRecord, input_at, the_input, the_todo, the_view, todo_at,
    view_at,
};
use crate::store::Store;

verus! {

/// A request to move the focus to a view, or to nothing.
#[derive(Clone, Copy, Debug, PartialEq, Eq)]
pub struct SetFocus(pub Option<Handle>);

/// The one view that currently accepts text and key input, if any.
#[derive(Clone, Copy, Debug, PartialEq, Eq)]
pub struct Focus(pub Option<Handle>);

/// Only the focused view may be editable; so at most one view ever is.
pub open spec fn single_editable(s: Slots, focus: Option<Handle>) -> bool {
    forall|v: int|
        view_at(s, v) && (#[trigger] the_view(s, v)).editable ==> focus is Some && focus->0 == v
}

/// The model under `m` exists and is being edited.
pub open spec fn editing_at(s: Slots, m: int) -> bool {
    (todo_at(s, m) && the_todo(s, m).editing) || (input_at(s, m) && the_input(s, m).editing)
}

/// View `v` exists, is of a kind that can take typing, and mirrors a model
/// that is being edited.
pub open spec fn wants_edit(s: Slots, v: int) -> bool {
    view_at(s, v) && the_view(s, v).can_edit() && editing_at(s, the_view(s, v).model as int)
}

/// The focus is about to leave `from`: is there an editable view to lock?
pub open spec fn must_release(s: Slots, from: Option<Handle>) -> bool {
    from is Some && view_at(s, from->0 as int) && the_view(s, from->0 as int).editable
}

pub open spec fn with_editable(s: Slots, v: int, editable: bool) -> Slots {
    s.update(v, Some(Record::View(ViewRecord { editable, ..the_view(s, v) })))
}

/// The store once the focus has left `from`.
pub open spec fn released(s: Slots, from: Option<Handle>) -> Slots {
    if must_release(s, from) {
        with_editable(s, from->0 as int, false)
    } else {
        s
    }
}

/// The store once the focus has moved from `from` to `to`: the view that lost
/// it is read-only, and the view that got it is editable exactly if its model
/// is being edited.
pub open spec fn refocused(s: Slots, from: Option<Handle>, to: Option<Handle>) -> Slots {
    let r = released(s, from);
    if to is Some && wants_edit(r, to->0 as int) {
        with_editable(r, to->0 as int, true)
    } else {
        r
    }
}

/// The effects of moving the focus from `from` to `to`, in order.
pub open spec fn refocus_effects(s: Slots, from: Option<Handle>, to: Option<Handle>) -> Seq<
    Effect,
> {
    let lock = if must_release(s, from) {
        seq![Effect::SetReadOnly { view: from->0, read_only: true }]
    } else {
        Seq::empty()
    };
    let open = if to is Some && wants_edit(released(s, from), to->0 as int) {
        seq![Effect::SetReadOnly { view: to->0, read_only: false }]
    } else {
        Seq::empty()
    };
    lock + seq![Effect::RequestFocus { target: to }] + open
}

/// Moving the focus keeps the rule that only the focused view is editable.
pub proof fn refocus_keeps_single_editable(s: Slots, from: Option<Handle>, to: Option<Handle>)
    requires
        single_editable(s, from),
    ensures
        single_editable(refocused(s, from, to), to),
{
    let r = released(s, from);
    assert forall|v: int| view_at(r, v) implies !(#[trigger] the_view(r, v)).editable by {
        if must_release(s, from) && v == from->0 as int {
        } else {
            assert(the_view(r, v) == the_view(s, v));
        }
    };
    let f = refocused(s, from, to);
    assert forall|v: int| view_at(f, v) && (#[trigger] the_view(f, v)).editable implies to is Some
        && to->0 == v by {
        if to is Some && wants_edit(r, to->0 as int) && v == to->0 as int {
        } else {
            assert(the_view(f, v) == the_view(r, v));
        }
    };
}

impl Store {
    /// The view under `h`, if `h` names one.
    pub fn view_record(&self, h: Handle) -> (r: Option<&ViewRecord>)
        ensures
            r.is_some() == view_at(self@, h as int),
            r.is_some() ==> *r.unwrap() == the_view(self@, h as int),
    {
        if h < self.slots.len() {
            match &self.slots[h] {
                Some(Record::View(v)) => Some(v),
                _ => None,
            }
        } else {
            None
        }
    }

    /// Whether `m` names a model that is being edited.
    pub fn is_editing(&self, m: Handle) -> (b: bool)
        ensures
            b == editing_at(self@, m as int),
    {
        if m < self.slots.len() {
            match &self.slots[m] {
                Some(Record::Todo(t)) => t.editing,
                Some(Record::Input(i)) => i.editing,
                _ => false,
            }
        } else {
            false
        }
    }

    /// Whether `v` names a view that may be opened for typing now.
    pub fn wants_edit(&self, v: Handle) -> (b: bool)
        ensures
            b == wants_edit(self@, v as int),
    {
        match self.view_record(v) {
            Some(view) => {
                let can = match view.role {
                    Role::TodoTextView => true,
                    Role::TodoInput => true,
                    _ => false,
                };
                can && self.is_editing(view.model)
            },
            None => false,
        }
    }

    /// Sets the `editable` flag of the view under `v` and leaves the rest;
    /// does nothing where `v` names no view.
    pub fn set_editable(&mut self, v: Handle, editable: bool)
        ensures
            view_at(old(self)@, v as int) ==> final(self)@ == with_editable(
                old(self)@,
                v as int,
                editable,
            ),
            !view_at(old(self)@, v as int) ==> final(self)@ == old(self)@,
    {
        let next = match self.view_record(v) {
            Some(view) => Some(view.with_editable(editable)),
            None => None,
        };
        match next {
            Some(view) => {
                self.put(v, Record::View(view));
            },
            None => {},
        }
    }
}

/// Serves one focus request: the last writer wins.
pub fn focus_on(store: &mut Store, focus: &mut Focus, outbox: &mut Vec<Effect>, request: SetFocus)
    ensures
        final(store)@ == refocused(old(store)@, old(focus).0, request.0),
        final(focus).0 == request.0,
        final(outbox)@ == old(outbox)@ + refocus_effects(old(store)@, old(focus).0, request.0),
        single_editable(old(store)@, old(focus).0) ==> single_editable(
            final(store)@,
            final(focus).0,
        ),
{
    proof {
        if single_editable(store@, focus.0) {
            refocus_keeps_single_editable(store@, focus.0, request.0);
        }
    }
    match focus.0 {
        Some(from) => {
            let locked = match store.view_record(from) {
                Some(view) => view.editable,
                None => false,
            };
            if locked {
                store.set_editable(from, false);
                outbox.push(Effect::SetReadOnly { view: from, read_only: true });
            }
        },
        None => {},
    }
    outbox.push(Effect::RequestFocus { target: request.0 });
    match request.0 {
        Some(to) => {
            if store.wants_edit(to) {
                store.set_editable(to, true);
                outbox.push(Effect::SetReadOnly { view: to, read_only: false });
            }
        },
        None => {},
    }
    focus.0 = request.0;
}

/// The focus state that a run of requests works on.
pub struct FocusState {
    pub slots: Slots,
    pub focus: Option<Handle>,
    pub effects: Seq<Effect>,
}

pub open spec fn focus_step(w: FocusState, request: SetFocus) -> FocusState {
    FocusState {
        slots: refocused(w.slots, w.focus, request.0),
        focus: request.0,
        effects: w.effects + refocus_effects(w.slots, w.focus, request.0),
    }
}

/// The first `n` requests, served in arrival order.
pub open spec fn focus_run(w: FocusState, requests: Seq<SetFocus>, n: nat) -> FocusState
    decreases n,
{
    if n == 0 {
        w
    } else {
        focus_step(focus_run(w, requests, (n - 1) as nat), requests[n - 1])
    }
}

/// A run of requests keeps the rule that only the focused view is editable.
pub proof fn focus_run_keeps_single_editable(w: FocusState, requests: Seq<SetFocus>, n: nat)
    requires
        single_editable(w.slots, w.focus),
        n <= requests.len(),
    ensures
        single_editable(focus_run(w, requests, n).slots, focus_run(w, requests, n).focus),
    decreases n,
{
    if n > 0 {
        focus_run_keeps_single_editable(w, requests, (n - 1) as nat);
        let p = focus_run(w, requests, (n - 1) as nat);
        refocus_keeps_single_editable(p.slots, p.focus, requests[n - 1].0);
    }
}

/// Serves the queued focus requests in arrival order.
pub fn handle_focus(
    store: &mut Store,
    focus: &mut Focus,
    outbox: &mut Vec<Effect>,
    requests: &Vec<SetFocus>,
)
    ensures
        (FocusState { slots: final(store)@, focus: final(focus).0, effects: final(outbox)@ })
            == focus_run(
            (FocusState { slots: old(store)@, focus: old(focus).0, effects: old(outbox)@ }),
            requests@,
            requests@.len(),
        ),
{
    let mut i: usize = 0;
    while i < requests.len()
        invariant
            0 <= i <= requests.len(),
            (FocusState { slots: store@, focus: focus.0, effects: outbox@ }) == focus_run(
                (FocusState { slots: old(store)@, focus: old(focus).0, effects: old(outbox)@ }),
                requests@,
                i as nat,
            ),
        decreases requests.len() - i,
    {
        focus_on(store, focus, outbox, requests[i]);
        i = i + 1;
    }
}

} // verus!
