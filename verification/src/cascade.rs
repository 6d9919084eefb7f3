//! The removal of views whose model is gone.
use vstd::prelude::*;
use crate::effect::Effect;
use crate::focus::{
    Focus, FocusState, SetFocus, focus_on, refocus_effects, refocused, single_editable,
};
use crate::record::{Handle, Slots, model_at, the_view, view_at};
use crate::store::Store;

verus! {

/// View `k` mirrors a model that no longer exists.
pub open spec fn orphan(s: Slots, k: int) -> bool {
    view_at(s, k) && !model_at(s, the_view(s, k).model as int)
}

pub open spec fn any_orphan(s: Slots) -> bool {
    exists|k: int| orphan(s, k)
}

/// The store without its orphans.
pub open spec fn culled(s: Slots) -> Slots {
    Seq::new(
        s.len(),
        |k: int|
            if orphan(s, k) {
                None
            } else {
                s[k]
            },
    )
}

/// The removals among the first `n` slots, in slot order.
pub open spec fn cull_effects(s: Slots, n: nat) -> Seq<Effect>
    decreases n,
{
    if n == 0 {
        Seq::empty()
    } else {
        let k = n - 1;
        let before = cull_effects(s, k as nat);
        if orphan(s, k) {
            before.push(Effect::DestroyView { view: k as Handle })
        } else {
            before
        }
    }
}

/// The focus sits on a view whose model is gone.
pub open spec fn focus_lost(s: Slots, focus: Option<Handle>) -> bool {
    focus is Some && orphan(s, focus->0 as int)
}

/// The outcome of the removal: every orphan is gone and nothing else is
/// touched. The focus is given up exactly where it sat on a view that was
/// removed; wherever else it sat, it stays.
pub open spec fn cascaded(w: FocusState) -> FocusState {
    FocusState {
        slots: culled(w.slots),
        focus: if focus_lost(w.slots, w.focus) {
            None
        } else {
            w.focus
        },
        effects: w.effects + cull_effects(w.slots, w.slots.len()) + (if focus_lost(
            w.slots,
            w.focus,
        ) {
            seq![Effect::RequestFocus { target: None }]
        } else {
            Seq::empty()
        }),
    }
}

/// Where no view has lost its model, nothing is removed.
pub proof fn cull_idle(s: Slots, n: nat)
    requires
        !any_orphan(s),
    ensures
        culled(s) == s,
        cull_effects(s, n) == Seq::<Effect>::empty(),
    decreases n,
{
    assert forall|k: int| 0 <= k < s.len() implies !orphan(s, k) by {};
    assert(culled(s) =~= s);
    if n > 0 {
        cull_idle(s, (n - 1) as nat);
        assert(!orphan(s, n - 1));
    }
}

/// Where no view has lost its model, the removal changes nothing at all.
pub proof fn cascade_idle(w: FocusState)
    requires
        !any_orphan(w.slots),
    ensures
        cascaded(w) == w,
{
    cull_idle(w.slots, w.slots.len());
    if w.focus is Some {
        assert(!orphan(w.slots, w.focus->0 as int));
    }
    assert(cascaded(w).effects =~= w.effects);
}

/// Removing views keeps the rule that only the focused view is editable.
pub proof fn cull_keeps_single_editable(s: Slots, focus: Option<Handle>)
    requires
        single_editable(s, focus),
    ensures
        single_editable(culled(s), focus),
{
    let c = culled(s);
    assert forall|v: int| view_at(c, v) && (#[trigger] the_view(c, v)).editable implies focus
        is Some && focus->0 == v by {
        assert(the_view(c, v) == the_view(s, v));
    };
}

/// After the removal no view is left whose model is gone.
pub proof fn cull_leaves_no_orphan(s: Slots)
    ensures
        !any_orphan(culled(s)),
        forall|k: int| model_at(s, k) ==> #[trigger] culled(s)[k] == s[k],
{
    let c = culled(s);
    assert forall|k: int| !orphan(c, k) by {
        if view_at(c, k) {
            assert(!orphan(s, k));
        }
    };
}

impl Store {
    /// Whether `m` names a model record.
    pub fn is_model(&self, m: Handle) -> (b: bool)
        ensures
            b == model_at(self@, m as int),
    {
        self.todo(m).is_some() || self.input(m).is_some()
    }
}

/// Removes every view whose model is gone, and nothing else. Where the
/// focus sat on a view that is removed, the focus is given up; wherever else
/// it sat, it stays, and no view that survives is touched.
pub fn remove_displayed_todos(store: &mut Store, focus: &mut Focus, outbox: &mut Vec<Effect>)
    ensures
        (FocusState { slots: final(store)@, focus: final(focus).0, effects: final(outbox)@ })
            == cascaded(
            (FocusState { slots: old(store)@, focus: old(focus).0, effects: old(outbox)@ }),
        ),
        single_editable(old(store)@, old(focus).0) ==> single_editable(
            final(store)@,
            final(focus).0,
        ),
{
    let ghost s0 = store@;
    let ghost out0 = outbox@;
    let lost = match focus.0 {
        Some(held) => match store.view_record(held) {
            Some(view) => !store.is_model(view.model),
            None => false,
        },
        None => false,
    };
    let n = store.len();
    let mut i: usize = 0;
    while i < n
        invariant
            0 <= i <= n,
            n == s0.len(),
            store@.len() == s0.len(),
            forall|k: int| 0 <= k < i ==> #[trigger] store@[k] == culled(s0)[k],
            forall|k: int| i <= k < n ==> #[trigger] store@[k] == s0[k],
            outbox@ == out0 + cull_effects(s0, i as nat),
        decreases n - i,
    {
        let gone = match store.view_record(i) {
            Some(view) => !store.is_model(view.model),
            None => false,
        };
        if gone {
            store.destroy(i);
            outbox.push(Effect::DestroyView { view: i });
        }
        proof {
            assert(outbox@ =~= out0 + cull_effects(s0, (i + 1) as nat));
        }
        i = i + 1;
    }
    proof {
        assert(store@ =~= culled(s0));
        if single_editable(s0, focus.0) {
            cull_keeps_single_editable(s0, focus.0);
        }
    }
    if lost {
        proof {
            assert(!view_at(store@, focus.0->0 as int));
            assert(refocused(store@, focus.0, None) == store@);
            assert(refocus_effects(store@, focus.0, None) =~= seq![
                Effect::RequestFocus { target: None },
            ]);
        }
        focus_on(store, focus, outbox, SetFocus(None));
    }
}

} // verus!
