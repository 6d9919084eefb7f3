//! Steps on the way to what holds of whole ticks.
use vstd::prelude::*;
use crate::action::{
    Batch, ModelInputAction, ModelTodoAction, input_run, input_step, todo_run, todo_step,
};
use crate::cascade::{any_orphan, cascade_idle, orphan};
use crate::effect::Effect;
use crate::engine::{all_quiet, finished, materialized, mutated, propagated, settled};
use crate::focus::{FocusState, SetFocus, focus_run, refocused, released};
use crate::laws::{checked_shown, text_shown, with_new_input, with_new_todo};
use crate::materialize::{
    Stage, as_slots, block_at, blocks, counted, create_effects, fresh_input, fresh_todo,
    fresh_todos, grown, input_views, inputs_shown, kept, link_effects, owned, root_rows, row_of,
    shown_well, spawned_for, todo_links, todo_shown, todo_views, todo_widgets, todos_shown,
};
use crate::propagate::{
    Rule, calm_slot, calmed, input_focus_requests, rule_fires, sweep_effects, swept, swept_slot,
    todo_edit_pulse, todo_focus_requests,
};
use crate::record::{
    Handle, InputModel, Record, Role, Slots, TodoModel, input_at, model_at, the_input, the_todo,
    the_view, todo_at, view_at,
};

verus! {

/// Showing todo items does nothing where none of the records concerned is a
/// fresh todo item.
pub proof fn todos_shown_idle(w: Stage, list: Handle, n: nat)
    requires
        forall|k: int| 0 <= k < n ==> !fresh_todo(w.slots, k),
    ensures
        todos_shown(w, list, n) == w,
    decreases n,
{
    if n > 0 {
        todos_shown_idle(w, list, (n - 1) as nat);
    }
}

/// Showing composition buffers does nothing where none of the records
/// concerned is a fresh composition buffer.
pub proof fn inputs_shown_idle(w: Stage, container: Handle, n: nat)
    requires
        forall|k: int| 0 <= k < n ==> !fresh_input(w.slots, k),
    ensures
        inputs_shown(w, container, n) == w,
    decreases n,
{
    if n > 0 {
        inputs_shown_idle(w, container, (n - 1) as nat);
    }
}

/// What the showing of the first `n` records leaves: none of them is a
/// fresh todo item any more, the records behind them are untouched, and
/// whatever was added is a view.
pub proof fn todos_shown_clears(w: Stage, list: Handle, n: nat)
    requires
        n <= w.slots.len(),
    ensures
        ({
            let r = todos_shown(w, list, n).slots;
            &&& r.len() >= w.slots.len()
            &&& forall|k: int| 0 <= k < n ==> !fresh_todo(r, k)
            &&& forall|k: int| n <= k < w.slots.len() ==> #[trigger] r[k] == w.slots[k]
            &&& forall|k: int| w.slots.len() <= k < r.len() ==> view_at(r, k)
        }),
    decreases n,
{
    if n > 0 {
        todos_shown_clears(w, list, (n - 1) as nat);
        let p = todos_shown(w, list, (n - 1) as nat);
        let r = todo_shown(p, list, n - 1).slots;
        assert(p.slots[n - 1] == w.slots[n - 1]);
        if fresh_todo(p.slots, n - 1) {
            let t = the_todo(p.slots, n - 1);
            let views = todo_views(t, (n - 1) as Handle);
            assert forall|k: int| 0 <= k < n implies !fresh_todo(r, k) by {
                if k < n - 1 {
                    assert(r[k] == p.slots[k]);
                    assert(!fresh_todo(p.slots, k));
                }
            };
            assert forall|k: int| n <= k < w.slots.len() implies #[trigger] r[k] == w.slots[k] by {
                assert(r[k] == p.slots[k]);
            };
            assert forall|k: int| w.slots.len() <= k < r.len() implies view_at(r, k) by {
                if k < p.slots.len() {
                    assert(r[k] == p.slots[k]);
                    assert(view_at(p.slots, k));
                } else {
                    assert(r[k] == as_slots(views)[k - p.slots.len()]);
                }
            };
        }
    }
}

/// Where a rule fires for no view, its sweep changes nothing and has no effect.
pub proof fn sweep_without_pulse(rule: Rule, s: Slots, n: nat)
    requires
        forall|k: int| view_at(s, k) ==> !rule_fires(rule, s, #[trigger] the_view(s, k)),
    ensures
        swept(rule, s) == s,
        sweep_effects(rule, s, n) == Seq::<Effect>::empty(),
    decreases n,
{
    assert forall|k: int| 0 <= k < s.len() implies swept_slot(rule, s, k) == s[k] by {
        if view_at(s, k) {
            assert(!rule_fires(rule, s, the_view(s, k)));
        }
    };
    assert(swept(rule, s) =~= s);
    if n > 0 {
        sweep_without_pulse(rule, s, (n - 1) as nat);
        if view_at(s, n - 1) {
            assert(!rule_fires(rule, s, the_view(s, n - 1)));
        }
    }
}

/// No model record carries the pulse of its `editing` flag.
pub open spec fn no_edit_pulse(s: Slots) -> bool {
    &&& forall|k: int| todo_at(s, k) ==> !(#[trigger] the_todo(s, k)).editing_changed
    &&& forall|k: int| input_at(s, k) ==> !(#[trigger] the_input(s, k)).editing_changed
}

/// Where no `editing` flag was written, no focus request is raised.
pub proof fn focus_requests_without_pulse(s: Slots, editing: bool, n: nat)
    requires
        no_edit_pulse(s),
    ensures
        todo_focus_requests(s, editing, n) == Seq::<SetFocus>::empty(),
        input_focus_requests(s, editing, n) == Seq::<SetFocus>::empty(),
    decreases n,
{
    if n > 0 {
        focus_requests_without_pulse(s, editing, (n - 1) as nat);
        let k = n - 1;
        if view_at(s, k) {
            let m = the_view(s, k).model as int;
            if todo_at(s, m) {
                assert(!the_todo(s, m).editing_changed);
            }
            if input_at(s, m) {
                assert(!the_input(s, m).editing_changed);
            }
        }
    }
}

/// Where no pulse is pending, a sweep changes nothing and has no effect.
pub proof fn sweep_idle(rule: Rule, s: Slots, n: nat)
    requires
        all_quiet(s),
    ensures
        swept(rule, s) == s,
        sweep_effects(rule, s, n) == Seq::<Effect>::empty(),
    decreases n,
{
    assert forall|k: int| 0 <= k < s.len() implies swept_slot(rule, s, k) == s[k] by {
        if view_at(s, k) {
            let m = the_view(s, k).model as int;
            if todo_at(s, m) {
                assert(the_todo(s, m).quiet());
            }
            if input_at(s, m) {
                assert(the_input(s, m).quiet());
            }
        }
    };
    assert(swept(rule, s) =~= s);
    if n > 0 {
        sweep_idle(rule, s, (n - 1) as nat);
        let k = n - 1;
        if view_at(s, k) {
            let m = the_view(s, k).model as int;
            if todo_at(s, m) {
                assert(the_todo(s, m).quiet());
            }
            if input_at(s, m) {
                assert(the_input(s, m).quiet());
            }
        }
    }
}

/// Where no pulse is pending, no focus request is raised.
pub proof fn focus_requests_idle(s: Slots, editing: bool, n: nat)
    requires
        all_quiet(s),
    ensures
        todo_focus_requests(s, editing, n) == Seq::<SetFocus>::empty(),
        input_focus_requests(s, editing, n) == Seq::<SetFocus>::empty(),
    decreases n,
{
    if n > 0 {
        focus_requests_idle(s, editing, (n - 1) as nat);
        let k = n - 1;
        if view_at(s, k) {
            let m = the_view(s, k).model as int;
            if todo_at(s, m) {
                assert(the_todo(s, m).quiet());
            }
            if input_at(s, m) {
                assert(the_input(s, m).quiet());
            }
        }
    }
}

/// Where no pulse is pending, there is none to end.
pub proof fn calm_idle(s: Slots)
    requires
        all_quiet(s),
    ensures
        calmed(s) == s,
{
    assert forall|k: int| 0 <= k < s.len() implies calm_slot(s[k]) == s[k] by {
        if todo_at(s, k) {
            assert(the_todo(s, k).quiet());
        }
        if input_at(s, k) {
            assert(the_input(s, k).quiet());
        }
    };
    assert(calmed(s) =~= s);
}

/// Propagation over a store without pulses changes nothing, has no effect
/// and raises no focus request.
pub proof fn propagation_idle(w: Stage)
    requires
        all_quiet(w.slots),
    ensures
        propagated(w) == w,
{
    let s = w.slots;
    sweep_idle(Rule::TodoText, s, s.len());
    sweep_idle(Rule::TodoTextChecked, s, s.len());
    sweep_idle(Rule::TodoCheckmarkChecked, s, s.len());
    sweep_idle(Rule::InputText, s, s.len());
    focus_requests_idle(s, false, s.len());
    focus_requests_idle(s, true, s.len());
    assert(propagated(w).effects =~= w.effects);
    assert(propagated(w).requests =~= w.requests);
}

/// A store without pulses holds no fresh record.
pub proof fn quiet_is_not_fresh(s: Slots)
    requires
        all_quiet(s),
    ensures
        forall|k: int| !fresh_todo(s, k) && !fresh_input(s, k),
{
}

/// Where no record is fresh, no view is built.
pub proof fn materialize_idle(s: Slots, list: Handle, container: Handle)
    requires
        forall|k: int| !fresh_todo(s, k) && !fresh_input(s, k),
    ensures
        materialized(s, list, container) == (Stage {
            slots: s,
            effects: Seq::empty(),
            requests: Seq::empty(),
        }),
{
    let start = Stage { slots: s, effects: Seq::empty(), requests: Seq::empty() };
    todos_shown_idle(start, list, s.len());
    inputs_shown_idle(start, container, s.len());
}

/// With one todo action and no input action queued, the mutation phase is
/// that one step.
pub proof fn lone_todo_action(s: Slots, a: ModelTodoAction)
    ensures
        mutated(s, seq![a], Seq::<ModelInputAction>::empty()) == todo_step(
            Batch {
                slots: s,
                spawned: Seq::empty(),
                despawned: Seq::empty(),
                stale: Seq::empty(),
            },
            a,
        ),
{
    let b0 = Batch {
        slots: s,
        spawned: Seq::empty(),
        despawned: Seq::empty(),
        stale: Seq::empty(),
    };
    reveal_with_fuel(todo_run, 2);
    assert(todo_run(b0, seq![a], 1) == todo_step(b0, seq![a][0]));
}

/// Where nothing asks for the focus and the store, once its pulses have
/// ended, holds no orphan, the end of the tick only ends the pulses.
pub proof fn finish_without_requests(shown: Stage, focus: Option<Handle>)
    requires
        shown.requests == Seq::<SetFocus>::empty(),
        !any_orphan(calmed(shown.slots)),
    ensures
        finished(shown, focus, Seq::<SetFocus>::empty()) == (FocusState {
            slots: calmed(shown.slots),
            focus,
            effects: shown.effects,
        }),
{
    cascade_idle(FocusState { slots: calmed(shown.slots), focus, effects: shown.effects });
}

/// What a record-by-record change of a settled store must keep for the
/// store to stay free of orphans: the models stay models, and each view
/// keeps its model.
pub proof fn keeps_no_orphan(s: Slots, g: Slots)
    requires
        !any_orphan(s),
        g.len() == s.len(),
        forall|k: int| model_at(s, k) ==> model_at(g, k),
        forall|k: int|
            view_at(g, k) ==> view_at(s, k) && (#[trigger] the_view(g, k)).model == the_view(
                s,
                k,
            ).model,
    ensures
        !any_orphan(g),
{
    assert forall|k: int| !orphan(g, k) by {
        if view_at(g, k) {
            assert(the_view(g, k).model == the_view(s, k).model);
            assert(!orphan(s, k));
        }
    };
}

/// A settled store with a new todo item and its views behind it is settled.
pub proof fn new_todo_settled(s: Slots, text: String)
    requires
        settled(s),
        s.len() <= usize::MAX,
    ensures
        settled(with_new_todo(s, text)),
{
    let h = s.len() as int;
    let r = with_new_todo(s, text);
    let views = todo_views(TodoModel::created(text), h as Handle);
    assert forall|k: int| todo_at(r, k) implies (#[trigger] the_todo(r, k)).quiet() by {
        if k < h {
            assert(r[k] == s[k]);
            assert(the_todo(s, k).quiet());
        }
    };
    assert forall|k: int| input_at(r, k) implies (#[trigger] the_input(r, k)).quiet() by {
        if k < h {
            assert(r[k] == s[k]);
            assert(the_input(s, k).quiet());
        }
    };
    assert forall|k: int| !orphan(r, k) by {
        if view_at(r, k) {
            if k < h {
                assert(r[k] == s[k]);
                assert(!orphan(s, k));
                let m = the_view(s, k).model as int;
                assert(model_at(s, m));
                assert(r[m] == s[m]);
            } else {
                assert(k > h);
                assert(r[k] == as_slots(views)[k - h - 1]);
                assert(the_view(r, k).model == h as Handle);
                assert(todo_at(r, h));
            }
        }
    };
}

/// The store `s` once `UpdateText(h, text)` is served: the text is written
/// and its pulse set.
pub open spec fn text_written(s: Slots, h: Handle, text: String) -> Slots {
    s.update(
        h as int,
        Some(Record::Todo(TodoModel { text, text_changed: true, ..the_todo(s, h as int) })),
    )
}

/// The store `s` once `UpdateChecked(h, checked)` is served: the flag is
/// written and its pulse set.
pub open spec fn checked_written(s: Slots, h: Handle, checked: bool) -> Slots {
    s.update(
        h as int,
        Some(Record::Todo(TodoModel { checked, checked_changed: true, ..the_todo(s, h as int) })),
    )
}

/// Propagation of a written text over an otherwise settled store pushes the
/// text into the text views of the item, raises no focus request, and leaves a
/// store that, once its pulses have ended, is the store with the text shown.
pub proof fn text_propagates(s: Slots, h: Handle, text: String)
    requires
        settled(s),
        todo_at(s, h as int),
    ensures
        ({
            let start = Stage {
                slots: text_written(s, h, text),
                effects: Seq::empty(),
                requests: Seq::empty(),
            };
            &&& propagated(start).requests == Seq::<SetFocus>::empty()
            &&& calmed(propagated(start).slots) == text_shown(s, h, text)
        }),
{
    let s1 = text_written(s, h, text);
    let start = Stage { slots: s1, effects: Seq::empty(), requests: Seq::empty() };
    assert(the_todo(s, h as int).quiet());
    let s2 = swept(Rule::TodoText, s1);
    assert forall|k: int| 0 <= k < s.len() implies s2[k] == swept_slot(Rule::TodoText, s1, k) by {};
    assert forall|k: int| view_at(s2, k) implies !rule_fires(
        Rule::TodoTextChecked,
        s2,
        #[trigger] the_view(s2, k),
    ) && !rule_fires(Rule::TodoCheckmarkChecked, s2, the_view(s2, k)) && !rule_fires(
        Rule::InputText,
        s2,
        the_view(s2, k),
    ) by {
        let m = the_view(s2, k).model as int;
        if 0 <= m < s.len() {
            assert(s2[m] == swept_slot(Rule::TodoText, s1, m));
            if m != h {
                assert(s1[m] == s[m]);
                if todo_at(s, m) {
                    assert(the_todo(s, m).quiet());
                }
                if input_at(s, m) {
                    assert(the_input(s, m).quiet());
                }
            }
        }
    };
    sweep_without_pulse(Rule::TodoTextChecked, s2, s2.len());
    sweep_without_pulse(Rule::TodoCheckmarkChecked, s2, s2.len());
    sweep_without_pulse(Rule::InputText, s2, s2.len());
    assert(no_edit_pulse(s2)) by {
        assert forall|k: int| todo_at(s2, k) implies !(#[trigger] the_todo(
            s2,
            k,
        )).editing_changed by {
            assert(s2[k] == swept_slot(Rule::TodoText, s1, k));
            if k != h {
                assert(s1[k] == s[k]);
                assert(the_todo(s, k).quiet());
            }
        };
        assert forall|k: int| input_at(s2, k) implies !(#[trigger] the_input(
            s2,
            k,
        )).editing_changed by {
            assert(s2[k] == swept_slot(Rule::TodoText, s1, k));
            assert(s1[k] == s[k]);
            assert(the_input(s, k).quiet());
        };
    };
    focus_requests_without_pulse(s2, false, s2.len());
    focus_requests_without_pulse(s2, true, s2.len());
    assert(propagated(start).slots == s2);
    assert(propagated(start).requests =~= Seq::<SetFocus>::empty());
    let c = calmed(s2);
    let goal = text_shown(s, h, text);
    assert forall|k: int| 0 <= k < s.len() implies c[k] == goal[k] by {
        assert(c[k] == calm_slot(s2[k]));
        assert(s2[k] == swept_slot(Rule::TodoText, s1, k));
        if k != h {
            assert(s1[k] == s[k]);
            if todo_at(s, k) {
                assert(the_todo(s, k).quiet());
            }
            if input_at(s, k) {
                assert(the_input(s, k).quiet());
            }
            if view_at(s, k) {
                let m = the_view(s, k).model as int;
                if m != h as int && 0 <= m < s.len() {
                    assert(s1[m] == s[m]);
                    if todo_at(s, m) {
                        assert(the_todo(s, m).quiet());
                    }
                }
            }
        }
    };
    assert(c =~= goal);
}

/// Showing a text leaves the store as a tick leaves it.
pub proof fn text_shown_settled(s: Slots, h: Handle, text: String)
    requires
        settled(s),
        todo_at(s, h as int),
    ensures
        settled(text_shown(s, h, text)),
{
    let g = text_shown(s, h, text);
    assert(the_todo(s, h as int).quiet());
    assert forall|k: int| todo_at(g, k) implies (#[trigger] the_todo(g, k)).quiet() by {
        if k != h {
            assert(g[k] == s[k]);
            assert(the_todo(s, k).quiet());
        }
    };
    assert forall|k: int| input_at(g, k) implies (#[trigger] the_input(g, k)).quiet() by {
        assert(g[k] == s[k]);
        assert(the_input(s, k).quiet());
    };
    assert forall|k: int| !orphan(g, k) by {
        if view_at(g, k) {
            assert(view_at(s, k));
            assert(!orphan(s, k));
            let m = the_view(s, k).model as int;
            assert(the_view(g, k).model == the_view(s, k).model);
            assert(model_at(s, m));
            assert(model_at(g, m));
        }
    };
}

/// Propagation of a written `checked` flag over an otherwise settled store
/// restyles the text and checkmark views of the item, raises no focus
/// request, and leaves a store that, once its pulses have ended, is the store
/// with the flag shown.
pub proof fn checked_propagates(s: Slots, h: Handle, checked: bool)
    requires
        settled(s),
        todo_at(s, h as int),
    ensures
        ({
            let start = Stage {
                slots: checked_written(s, h, checked),
                effects: Seq::empty(),
                requests: Seq::empty(),
            };
            &&& propagated(start).requests == Seq::<SetFocus>::empty()
            &&& calmed(propagated(start).slots) == checked_shown(s, h, checked)
        }),
{
    let s1 = checked_written(s, h, checked);
    let start = Stage { slots: s1, effects: Seq::empty(), requests: Seq::empty() };
    assert(the_todo(s, h as int).quiet());
    assert forall|k: int| view_at(s1, k) implies !rule_fires(
        Rule::TodoText,
        s1,
        #[trigger] the_view(s1, k),
    ) by {
        let m = the_view(s1, k).model as int;
        if todo_at(s1, m) && m != h {
            assert(s1[m] == s[m]);
            assert(the_todo(s, m).quiet());
        }
    };
    sweep_without_pulse(Rule::TodoText, s1, s1.len());
    let s2 = swept(Rule::TodoTextChecked, s1);
    let s3 = swept(Rule::TodoCheckmarkChecked, s2);
    checked_sweeps(s, h, checked);
    assert forall|k: int| view_at(s3, k) implies !rule_fires(
        Rule::InputText,
        s3,
        #[trigger] the_view(s3, k),
    ) by {
        let m = the_view(s3, k).model as int;
        if input_at(s3, m) {
            assert(s3[m] == s[m]);
            assert(the_input(s, m).quiet());
        }
    };
    sweep_without_pulse(Rule::InputText, s3, s3.len());
    assert(no_edit_pulse(s3)) by {
        assert forall|k: int| todo_at(s3, k) implies !(#[trigger] the_todo(
            s3,
            k,
        )).editing_changed by {
            if k != h {
                assert(s3[k] == s[k]);
                assert(the_todo(s, k).quiet());
            }
        };
        assert forall|k: int| input_at(s3, k) implies !(#[trigger] the_input(
            s3,
            k,
        )).editing_changed by {
            assert(s3[k] == s[k]);
            assert(the_input(s, k).quiet());
        };
    };
    focus_requests_without_pulse(s3, false, s3.len());
    focus_requests_without_pulse(s3, true, s3.len());
    assert(propagated(start).slots == s3);
    assert(propagated(start).requests =~= Seq::<SetFocus>::empty());
    let c = calmed(s3);
    let goal = checked_shown(s, h, checked);
    assert forall|k: int| 0 <= k < s.len() implies c[k] == goal[k] by {
        assert(c[k] == calm_slot(s3[k]));
        if todo_at(s, k) {
            assert(the_todo(s, k).quiet());
        }
        if input_at(s, k) {
            assert(the_input(s, k).quiet());
        }
    };
    assert(c =~= goal);
}

/// The two sweeps of the `checked` flag over a store in which only the item
/// under `h` carries that pulse: the item keeps its written state, each of
/// its text and checkmark views takes the style of the flag, and every other
/// record is as it was before the flag was written.
pub proof fn checked_sweeps(s: Slots, h: Handle, checked: bool)
    requires
        settled(s),
        todo_at(s, h as int),
    ensures
        ({
            let s1 = checked_written(s, h, checked);
            let s3 = swept(Rule::TodoCheckmarkChecked, swept(Rule::TodoTextChecked, s1));
            &&& s3.len() == s.len()
            &&& s3[h as int] == s1[h as int]
            &&& forall|k: int|
                0 <= k < s.len() && k != h ==> #[trigger] s3[k] == checked_shown(s, h, checked)[k]
        }),
{
    let s1 = checked_written(s, h, checked);
    let s2 = swept(Rule::TodoTextChecked, s1);
    let s3 = swept(Rule::TodoCheckmarkChecked, s2);
    assert(s2[h as int] == swept_slot(Rule::TodoTextChecked, s1, h as int));
    assert(s3[h as int] == swept_slot(Rule::TodoCheckmarkChecked, s2, h as int));
    assert forall|k: int| 0 <= k < s.len() && k != h implies #[trigger] s3[k] == checked_shown(
        s,
        h,
        checked,
    )[k] by {
        assert(s3[k] == swept_slot(Rule::TodoCheckmarkChecked, s2, k));
        assert(s2[k] == swept_slot(Rule::TodoTextChecked, s1, k));
        assert(s1[k] == s[k]);
        if view_at(s, k) {
            let m = the_view(s, k).model as int;
            if 0 <= m < s.len() {
                assert(s2[m] == swept_slot(Rule::TodoTextChecked, s1, m));
                if m != h as int {
                    assert(s1[m] == s[m]);
                    if todo_at(s, m) {
                        assert(the_todo(s, m).quiet());
                    }
                }
            }
        }
    };
}

/// Moving the focus leaves a settled store settled: it touches no model and
/// no back-reference.
pub proof fn refocus_keeps_settled(s: Slots, from: Option<Handle>, to: Option<Handle>)
    requires
        settled(s),
    ensures
        settled(refocused(s, from, to)),
{
    let r = released(s, from);
    let f = refocused(s, from, to);
    assert forall|k: int| 0 <= k < s.len() implies (model_at(s, k) ==> f[k] == s[k]) && (view_at(
        f,
        k,
    ) ==> view_at(s, k) && the_view(f, k).model == the_view(s, k).model) by {
        assert(r[k] == s[k] || (view_at(s, k) && view_at(r, k) && the_view(r, k).model
            == the_view(s, k).model));
        assert(f[k] == r[k] || (view_at(r, k) && view_at(f, k) && the_view(f, k).model
            == the_view(r, k).model));
    };
    assert forall|k: int| todo_at(f, k) implies (#[trigger] the_todo(f, k)).quiet() by {
        assert(r[k] == s[k]);
        assert(f[k] == s[k]);
        assert(the_todo(s, k).quiet());
    };
    assert forall|k: int| input_at(f, k) implies (#[trigger] the_input(f, k)).quiet() by {
        assert(r[k] == s[k]);
        assert(f[k] == s[k]);
        assert(the_input(s, k).quiet());
    };
    keeps_no_orphan(s, f);
}

/// With no todo action and one input action queued, the mutation phase is
/// that one step.
pub proof fn lone_input_action(s: Slots, a: ModelInputAction)
    ensures
        mutated(s, Seq::<ModelTodoAction>::empty(), seq![a]) == input_step(
            Batch {
                slots: s,
                spawned: Seq::empty(),
                despawned: Seq::empty(),
                stale: Seq::empty(),
            },
            a,
        ),
{
    let b0 = Batch {
        slots: s,
        spawned: Seq::empty(),
        despawned: Seq::empty(),
        stale: Seq::empty(),
    };
    reveal_with_fuel(input_run, 2);
    assert(input_run(b0, seq![a], 1) == input_step(b0, seq![a][0]));
}

/// A settled store with a new composition buffer and its view behind it is
/// settled.
pub proof fn new_input_settled(s: Slots, text: String)
    requires
        settled(s),
        s.len() <= usize::MAX,
    ensures
        settled(with_new_input(s, text)),
{
    let h = s.len() as int;
    let r = with_new_input(s, text);
    let views = input_views(InputModel::created(text), h as Handle);
    assert forall|k: int| todo_at(r, k) implies (#[trigger] the_todo(r, k)).quiet() by {
        if k < h {
            assert(r[k] == s[k]);
            assert(the_todo(s, k).quiet());
        }
    };
    assert forall|k: int| input_at(r, k) implies (#[trigger] the_input(r, k)).quiet() by {
        if k < h {
            assert(r[k] == s[k]);
            assert(the_input(s, k).quiet());
        }
    };
    assert forall|k: int| !orphan(r, k) by {
        if view_at(r, k) {
            if k < h {
                assert(r[k] == s[k]);
                assert(!orphan(s, k));
                let m = the_view(s, k).model as int;
                assert(model_at(s, m));
                assert(r[m] == s[m]);
            } else {
                assert(k == h + 1);
                assert(r[k] == as_slots(views)[0]);
                assert(the_view(r, k).model == h as Handle);
                assert(input_at(r, h));
            }
        }
    };
}

/// `t` is `s` but for the `editable` flags of its views.
pub open spec fn same_but_editable(s: Slots, t: Slots) -> bool {
    &&& t.len() == s.len()
    &&& forall|k: int|
        0 <= k < s.len() ==> #[trigger] t[k] == s[k] || (view_at(s, k) && view_at(t, k) && the_view(
            t,
            k,
        ).role == the_view(s, k).role && the_view(t, k).model == the_view(s, k).model)
}

/// Serving focus requests changes nothing but `editable` flags.
pub proof fn focus_run_touches_flags_only(w: FocusState, requests: Seq<SetFocus>, n: nat)
    requires
        n <= requests.len(),
    ensures
        same_but_editable(w.slots, focus_run(w, requests, n).slots),
    decreases n,
{
    if n > 0 {
        focus_run_touches_flags_only(w, requests, (n - 1) as nat);
        let p = focus_run(w, requests, (n - 1) as nat);
        let to = requests[n - 1].0;
        let r = released(p.slots, p.focus);
        let f = refocused(p.slots, p.focus, to);
        assert forall|k: int| 0 <= k < w.slots.len() implies #[trigger] f[k] == w.slots[k] || (
        view_at(w.slots, k) && view_at(f, k) && the_view(f, k).role == the_view(w.slots, k).role
            && the_view(f, k).model == the_view(w.slots, k).model) by {
            assert(p.slots[k] == w.slots[k] || (view_at(w.slots, k) && view_at(p.slots, k)));
            assert(r[k] == p.slots[k] || (view_at(p.slots, k) && view_at(r, k) && the_view(
                r,
                k,
            ).role == the_view(p.slots, k).role && the_view(r, k).model == the_view(
                p.slots,
                k,
            ).model));
            assert(f[k] == r[k] || (view_at(r, k) && view_at(f, k) && the_view(f, k).role
                == the_view(r, k).role && the_view(f, k).model == the_view(r, k).model));
        };
    }
}

/// Where `v` is the last view among the first `n` that the written flag of
/// a todo item concerns, the last request that the flag raises is for `v`.
pub proof fn last_request_is_for_the_last_view(s: Slots, editing: bool, v: int, n: nat)
    requires
        0 <= v < n,
        v <= usize::MAX,
        todo_edit_pulse(s, v, editing),
        forall|u: int| v < u < n ==> !todo_edit_pulse(s, u, editing),
    ensures
        todo_focus_requests(s, editing, n).len() > 0,
        todo_focus_requests(s, editing, n).last() == SetFocus(Some(v as Handle)),
    decreases n,
{
    if n - 1 > v {
        last_request_is_for_the_last_view(s, editing, v, (n - 1) as nat);
    }
}

/// The requests that a written `editing` flag of the todo item under `h`
/// raises over an otherwise settled store: none for the composition
/// buffers, none for a flag that went down, and a last one for the last
/// text view of the item.
pub proof fn edit_requests(s: Slots, h: Handle, v: Handle)
    requires
        settled(s),
        todo_at(s, h as int),
        view_at(s, v as int),
        the_view(s, v as int).role == Role::TodoTextView,
        the_view(s, v as int).model == h,
        forall|u: int|
            v < u && view_at(s, u) && the_view(s, u).role == Role::TodoTextView ==> (
            #[trigger] the_view(s, u)).model != h,
    ensures
        ({
            let s1 = s.update(
                h as int,
                Some(
                    Record::Todo(
                        TodoModel {
                            editing: true,
                            editing_changed: true,
                            ..the_todo(s, h as int)
                        },
                    ),
                ),
            );
            &&& input_focus_requests(s1, false, s1.len()) == Seq::<SetFocus>::empty()
            &&& input_focus_requests(s1, true, s1.len()) == Seq::<SetFocus>::empty()
            &&& todo_focus_requests(s1, false, s1.len()) == Seq::<SetFocus>::empty()
            &&& todo_focus_requests(s1, true, s1.len()).len() > 0
            &&& todo_focus_requests(s1, true, s1.len()).last() == SetFocus(Some(v))
        }),
{
    let s1 = s.update(
        h as int,
        Some(
            Record::Todo(
                TodoModel { editing: true, editing_changed: true, ..the_todo(s, h as int) },
            ),
        ),
    );
    no_requests_but_for(s, s1, h, s1.len());
    assert(s1[v as int] == s[v as int]);
    assert(todo_edit_pulse(s1, v as int, true));
    assert forall|u: int| v < u < s1.len() implies !todo_edit_pulse(s1, u, true) by {
        if view_at(s1, u) {
            assert(s1[u] == s[u]);
            let m = the_view(s, u).model as int;
            if the_view(s, u).role == Role::TodoTextView && m != h && todo_at(s1, m) {
                assert(s1[m] == s[m]);
                assert(the_todo(s, m).quiet());
            }
        }
    };
    last_request_is_for_the_last_view(s1, true, v as int, s1.len());
}

/// Over a store `s1` that is the settled store `s` but for the todo item
/// under `h`, whose `editing` flag was raised, no composition buffer raises
/// a focus request, and no todo item raises one for a flag that went down.
pub proof fn no_requests_but_for(s: Slots, s1: Slots, h: Handle, n: nat)
    requires
        settled(s),
        todo_at(s, h as int),
        s1 == s.update(
            h as int,
            Some(
                Record::Todo(
                    TodoModel { editing: true, editing_changed: true, ..the_todo(s, h as int) },
                ),
            ),
        ),
    ensures
        input_focus_requests(s1, false, n) == Seq::<SetFocus>::empty(),
        input_focus_requests(s1, true, n) == Seq::<SetFocus>::empty(),
        todo_focus_requests(s1, false, n) == Seq::<SetFocus>::empty(),
    decreases n,
{
    if n > 0 {
        no_requests_but_for(s, s1, h, (n - 1) as nat);
        let k = n - 1;
        if view_at(s1, k) {
            let m = the_view(s1, k).model as int;
            if 0 <= m < s.len() && m != h {
                assert(s1[m] == s[m]);
                if todo_at(s, m) {
                    assert(the_todo(s, m).quiet());
                }
                if input_at(s, m) {
                    assert(the_input(s, m).quiet());
                }
            }
        }
    }
}

/// Slots that agree from `lo` up to `hi` hold the same number of rows there.
pub proof fn root_rows_agree(s: Slots, t: Slots, lo: int, hi: int)
    requires
        0 <= lo,
        hi <= s.len(),
        hi <= t.len(),
        forall|k: int| lo <= k < hi ==> #[trigger] s[k] == t[k],
    ensures
        root_rows(s, lo, hi) == root_rows(t, lo, hi),
    decreases hi - lo,
{
    if hi > lo {
        root_rows_agree(s, t, lo, hi - 1);
        assert(s[hi - 1] == t[hi - 1]);
    }
}

/// The six views of one todo item hold exactly one row.
pub proof fn one_row_in_six(s: Slots, lo: int, row: int, t: TodoModel, m: Handle)
    requires
        0 <= lo <= row,
        row + 6 <= s.len(),
        s.subrange(row, row + 6) == as_slots(todo_views(t, m)),
    ensures
        root_rows(s, lo, row + 6) == root_rows(s, lo, row) + 1,
{
    let views = as_slots(todo_views(t, m));
    assert forall|j: int| 0 <= j < 6 implies s[row + j] == #[trigger] views[j] by {
        assert(s.subrange(row, row + 6)[j] == s[row + j]);
    };
    assert(s[row] == views[0]);
    assert(s[row + 1] == views[1]);
    assert(s[row + 2] == views[2]);
    assert(s[row + 3] == views[3]);
    assert(s[row + 4] == views[4]);
    assert(s[row + 5] == views[5]);
    reveal_with_fuel(root_rows, 7);
}

/// What one step of the showing adds for a fresh todo item.
pub proof fn shown_step(p: Stage, list: Handle, k: int)
    requires
        fresh_todo(p.slots, k),
    ensures
        ({
            let r = todo_shown(p, list, k);
            let views = todo_views(the_todo(p.slots, k), k as Handle);
            let row = p.slots.len() as int;
            let made = create_effects(row, views, todo_widgets()) + link_effects(
                todo_links(list, row),
            );
            &&& r.requests == p.requests
            &&& r.slots.len() == p.slots.len() + 6
            &&& r.effects.len() == p.effects.len() + 12
            &&& r.slots.subrange(0, row) == p.slots.update(
                k,
                Some(Record::Todo(TodoModel { fresh: false, ..the_todo(p.slots, k) })),
            )
            &&& r.slots.subrange(row, row + 6) == as_slots(views)
            &&& r.effects.subrange(0, p.effects.len() as int) == p.effects
            &&& r.effects.subrange(p.effects.len() as int, p.effects.len() as int + 12) == made
        }),
{
    let r = todo_shown(p, list, k);
    let views = todo_views(the_todo(p.slots, k), k as Handle);
    let row = p.slots.len() as int;
    let made = create_effects(row, views, todo_widgets()) + link_effects(todo_links(list, row));
    assert(made.len() == 12);
    assert(r.effects =~= p.effects + made);
    assert(r.slots.subrange(0, row) =~= p.slots.update(
        k,
        Some(Record::Todo(TodoModel { fresh: false, ..the_todo(p.slots, k) })),
    ));
    assert(r.slots.subrange(row, row + 6) =~= as_slots(views));
    assert(r.effects.subrange(0, p.effects.len() as int) =~= p.effects);
    assert(r.effects.subrange(p.effects.len() as int, p.effects.len() as int + 12) =~= made);
}

/// A step for a fresh item keeps `grown` and `kept`.
pub proof fn step_grows(w: Stage, p: Stage, list: Handle, k: int)
    requires
        0 <= k < w.slots.len(),
        grown(w, p, k as nat),
        kept(w, p, k as nat),
        fresh_todo(w.slots, k),
    ensures
        grown(w, todo_shown(p, list, k), (k + 1) as nat),
        kept(w, todo_shown(p, list, k), (k + 1) as nat),
{
    let r = todo_shown(p, list, k);
    let row = p.slots.len() as int;
    assert(p.slots[k] == w.slots[k]);
    shown_step(p, list, k);
    assert(r.effects.subrange(0, w.effects.len() as int) =~= w.effects) by {
        assert forall|j: int| 0 <= j < w.effects.len() implies r.effects[j] == w.effects[j] by {
            assert(r.effects.subrange(0, p.effects.len() as int)[j] == r.effects[j]);
            assert(p.effects.subrange(0, w.effects.len() as int)[j] == p.effects[j]);
        };
    };
    assert forall|j: int| 0 <= j < w.slots.len() implies #[trigger] r.slots[j] == (if j < k + 1
        && fresh_todo(w.slots, j) {
        Some(Record::Todo(TodoModel { fresh: false, ..the_todo(w.slots, j) }))
    } else {
        w.slots[j]
    }) by {
        assert(r.slots.subrange(0, row)[j] == r.slots[j]);
        assert(p.slots[j] == p.slots[j]);
    };
}

/// A step for a fresh item keeps the subtrees that stand and adds its own.
pub proof fn step_blocks(w: Stage, p: Stage, list: Handle, k: int)
    requires
        0 <= k < w.slots.len(),
        grown(w, p, k as nat),
        kept(w, p, k as nat),
        blocks(w, p, list, k as nat),
        fresh_todo(w.slots, k),
    ensures
        blocks(w, todo_shown(p, list, k), list, (k + 1) as nat),
{
    let r = todo_shown(p, list, k);
    let row = p.slots.len() as int;
    let at = p.effects.len() as int;
    assert(p.slots[k] == w.slots[k]);
    shown_step(p, list, k);
    assert forall|h: int| 0 <= h < k + 1 && fresh_todo(w.slots, h) implies #[trigger] block_at(
        r,
        w,
        list,
        h,
    ) by {
        if h < k {
            assert(block_at(p, w, list, h));
            let hrow = row_of(w.slots, h);
            let hat = w.effects.len() as int + 12 * fresh_todos(w.slots, h as nat);
            assert(r.slots.subrange(hrow, hrow + 6) =~= p.slots.subrange(hrow, hrow + 6)) by {
                assert forall|i: int| hrow <= i < hrow + 6 implies #[trigger] r.slots[i]
                    == p.slots[i] by {
                    assert(r.slots.subrange(0, row)[i] == r.slots[i]);
                };
            };
            assert(r.effects.subrange(hat, hat + 12) =~= p.effects.subrange(hat, hat + 12)) by {
                assert forall|i: int| hat <= i < hat + 12 implies #[trigger] r.effects[i]
                    == p.effects[i] by {
                    assert(r.effects.subrange(0, at)[i] == r.effects[i]);
                };
            };
        } else {
            assert(row == row_of(w.slots, k));
            assert(at == w.effects.len() + 12 * fresh_todos(w.slots, k as nat));
        }
    };
}

/// A step for a fresh item keeps the owners of the views that stand, and
/// the new views are the item's own.
pub proof fn step_owns(w: Stage, p: Stage, list: Handle, k: int)
    requires
        0 <= k < w.slots.len(),
        w.slots.len() <= usize::MAX,
        grown(w, p, k as nat),
        kept(w, p, k as nat),
        owned(w, p, k as nat),
        fresh_todo(w.slots, k),
    ensures
        owned(w, todo_shown(p, list, k), (k + 1) as nat),
{
    let r = todo_shown(p, list, k);
    let row = p.slots.len() as int;
    let views = todo_views(the_todo(p.slots, k), k as Handle);
    assert(p.slots[k] == w.slots[k]);
    shown_step(p, list, k);
    assert forall|i: int| w.slots.len() <= i < r.slots.len() implies #[trigger] spawned_for(
        r.slots,
        w.slots,
        (k + 1) as nat,
        i,
    ) by {
        if i < row {
            assert(spawned_for(p.slots, w.slots, k as nat, i));
            assert(r.slots.subrange(0, row)[i] == r.slots[i]);
            assert(r.slots[i] == p.slots[i]);
        } else {
            assert(r.slots.subrange(row, row + 6)[i - row] == r.slots[i]);
            assert(r.slots[i] == as_slots(views)[i - row]);
            assert(the_view(r.slots, i).model == k as Handle);
            assert(row == row_of(w.slots, k));
        }
    };
}

/// A step for a fresh item adds one row.
pub proof fn step_counts(w: Stage, p: Stage, list: Handle, k: int)
    requires
        0 <= k < w.slots.len(),
        grown(w, p, k as nat),
        kept(w, p, k as nat),
        counted(w, p, k as nat),
        fresh_todo(w.slots, k),
    ensures
        counted(w, todo_shown(p, list, k), (k + 1) as nat),
{
    let r = todo_shown(p, list, k);
    let row = p.slots.len() as int;
    assert(p.slots[k] == w.slots[k]);
    shown_step(p, list, k);
    assert forall|j: int| w.slots.len() <= j < row implies #[trigger] r.slots[j] == p.slots[j] by {
        assert(r.slots.subrange(0, row)[j] == r.slots[j]);
    };
    root_rows_agree(r.slots, p.slots, w.slots.len() as int, row);
    one_row_in_six(
        r.slots,
        w.slots.len() as int,
        row,
        the_todo(p.slots, k),
        k as Handle,
    );
}

/// A step for a record that is no fresh todo item changes nothing.
pub proof fn step_idle(w: Stage, p: Stage, list: Handle, k: int)
    requires
        0 <= k < w.slots.len(),
        shown_well(w, p, list, k as nat),
        !fresh_todo(w.slots, k),
    ensures
        todo_shown(p, list, k) == p,
        shown_well(w, p, list, (k + 1) as nat),
{
    assert(p.slots[k] == w.slots[k]);
    assert forall|i: int| w.slots.len() <= i < p.slots.len() implies #[trigger] spawned_for(
        p.slots,
        w.slots,
        (k + 1) as nat,
        i,
    ) by {
        assert(spawned_for(p.slots, w.slots, k as nat, i));
    };
    assert forall|h: int| 0 <= h < k + 1 && fresh_todo(w.slots, h) implies #[trigger] block_at(
        p,
        w,
        list,
        h,
    ) by {
        assert(block_at(p, w, list, h));
    };
}

} // verus!
