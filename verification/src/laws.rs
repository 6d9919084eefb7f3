//! What holds of whole ticks and of phases run one after another.
use vstd::prelude::*;
use crate::action::{Batch, ModelInputAction, ModelTodoAction, flushed, marked, todo_step};
use crate::cascade::{any_orphan, cascade_idle, cascaded, orphan};
use crate::effect::{Effect, Widget};
use crate::engine::{Engine, all_quiet, materialized, mutated, propagated, settled, ticked};
use crate::focus::{
    FocusState, SetFocus, focus_run, focus_step, refocus_effects, refocused, released, wants_edit,
};
use crate::lemmas::{
    calm_idle, checked_propagates, checked_written, edit_requests, finish_without_requests,
    focus_run_touches_flags_only, inputs_shown_idle, keeps_no_orphan, lone_input_action,
    lone_todo_action, materialize_idle, new_input_settled, new_todo_settled, propagation_idle,
    quiet_is_not_fresh, refocus_keeps_settled, step_blocks, step_counts, step_grows, step_idle,
    step_owns, sweep_without_pulse, text_propagates, text_shown_settled, text_written,
    todos_shown_clears, todos_shown_idle,
};
use crate::materialize::{
    Stage, as_slots, block_at, create_effects, fresh_input, fresh_todo, input_shown, input_views,
    inputs_shown, link_effects, row_of, shown_well, spawned_for, todo_links, todo_shown,
    todo_views, todo_widgets, todos_shown,
};
use crate::propagate::{Rule, calm_slot, calmed, rule_fires, swept, todo_focus_requests};
use crate::record::{
    Handle, InputModel, Record, Role, Slots, TodoModel, ViewRecord, checked_style, input_at, live,
    model_at, the_input, the_todo, the_view, todo_at, view_at,
};

verus! {

/// At most one view is editable: two editable views of a well-formed engine
/// are one and the same.
pub proof fn at_most_one_editable(e: Engine, v1: int, v2: int)
    requires
        e.wf(),
        view_at(e.store@, v1) && the_view(e.store@, v1).editable,
        view_at(e.store@, v2) && the_view(e.store@, v2).editable,
    ensures
        v1 == v2,
{
}

/// The views of a todo item are built exactly once: showing the records of
/// a store a second time changes nothing and has no effect.
pub proof fn todos_shown_once(w: Stage, list: Handle)
    ensures
        ({
            let once = todos_shown(w, list, w.slots.len());
            todos_shown(once, list, once.slots.len()) == once
        }),
{
    todos_shown_clears(w, list, w.slots.len());
    let once = todos_shown(w, list, w.slots.len());
    assert forall|k: int| 0 <= k < once.slots.len() implies !fresh_todo(once.slots, k) by {
        if k >= w.slots.len() {
            assert(view_at(once.slots, k));
        }
    };
    todos_shown_idle(once, list, once.slots.len());
}

/// The order of two rules does not matter: no rule writes what another reads.
pub proof fn sweeps_commute(first: Rule, second: Rule, s: Slots)
    ensures
        swept(second, swept(first, s)) == swept(first, swept(second, s)),
{
}

/// Running a rule a second time changes nothing.
pub proof fn sweep_twice(rule: Rule, s: Slots)
    ensures
        swept(rule, swept(rule, s)) == swept(rule, s),
{
}

/// Once `UpdateText(h, text)` is served and the text rule has run, every
/// text view of the todo item under `h` shows `text`; and running the rule
/// again changes nothing.
pub proof fn text_reaches_views(b: Batch, h: Handle, text: String)
    requires
        todo_at(b.slots, h as int),
    ensures
        ({
            let s1 = todo_step(b, ModelTodoAction::UpdateText(h, text)).slots;
            let s2 = swept(Rule::TodoText, s1);
            &&& todo_at(s2, h as int) && the_todo(s2, h as int).text == text
            &&& forall|v: int|
                view_at(s2, v) && (#[trigger] the_view(s2, v)).role == Role::TodoTextView
                    && the_view(s2, v).model == h ==> the_view(s2, v).text == Some(text)
            &&& swept(Rule::TodoText, s2) == s2
        }),
{
}

/// Once `UpdateChecked(h, checked)` is served and the two rules of the
/// `checked` flag have run, every text view and every checkmark view of the
/// todo item under `h` is in the style that stands for `checked`: completed
/// for `true`, normal again for `false`.
pub proof fn checked_reaches_views(b: Batch, h: Handle, checked: bool)
    requires
        todo_at(b.slots, h as int),
    ensures
        ({
            let s1 = todo_step(b, ModelTodoAction::UpdateChecked(h, checked)).slots;
            let s3 = swept(Rule::TodoCheckmarkChecked, swept(Rule::TodoTextChecked, s1));
            &&& todo_at(s3, h as int) && the_todo(s3, h as int).checked == checked
            &&& forall|v: int|
                view_at(s3, v) && ((#[trigger] the_view(s3, v)).role == Role::TodoTextView
                    || the_view(s3, v).role == Role::TodoCheckmarkView) && the_view(s3, v).model
                    == h ==> the_view(s3, v).style == checked_style(checked)
        }),
{
}

/// The focus sits on a view that mirrors the model under `h`.
pub open spec fn focus_on_view_of(s: Slots, focus: Option<Handle>, h: Handle) -> bool {
    focus is Some && view_at(s, focus->0 as int) && the_view(s, focus->0 as int).model == h
}

/// Once the model under `h` is destroyed, the removal of orphans leaves no
/// view that mirrors `h`, and where the focus was on such a view, it is on
/// nothing afterwards. Where no view had lost its model before, nothing
/// else is touched: every other record is as it was, and a focus that sat
/// elsewhere stays where it was.
pub proof fn deletion_cascade(s: Slots, focus: Option<Handle>, effects: Seq<Effect>, h: Handle)
    requires
        model_at(s, h as int),
    ensures
        ({
            let w = cascaded(FocusState { slots: s.update(h as int, None), focus, effects });
            &&& forall|v: int| view_at(w.slots, v) ==> (#[trigger] the_view(w.slots, v)).model != h
            &&& focus_on_view_of(s, focus, h) ==> w.focus is None
            &&& !any_orphan(s) && !focus_on_view_of(s, focus, h) ==> w.focus == focus
            &&& !any_orphan(s) ==> forall|k: int|
                0 <= k < s.len() && k != h && !(view_at(s, k) && the_view(s, k).model == h)
                    ==> #[trigger] w.slots[k] == s[k]
        }),
{
    let d = s.update(h as int, None);
    let w = cascaded(FocusState { slots: d, focus, effects });
    if focus_on_view_of(s, focus, h) {
        assert(orphan(d, focus->0 as int));
    }
    assert forall|v: int| view_at(w.slots, v) implies (#[trigger] the_view(w.slots, v)).model
        != h by {
        assert(!orphan(d, v));
    };
    if !any_orphan(s) {
        assert forall|k: int|
            0 <= k < s.len() && k != h && !(view_at(s, k) && the_view(s, k).model
                == h) implies #[trigger] w.slots[k] == s[k] by {
            assert(d[k] == s[k]);
            if view_at(s, k) {
                let m = the_view(s, k).model as int;
                assert(!orphan(s, k));
                assert(d[m] == s[m]);
            }
        };
        if !focus_on_view_of(s, focus, h) && focus is Some {
            let v = focus->0 as int;
            if view_at(s, v) {
                let m = the_view(s, v).model as int;
                assert(!orphan(s, v));
                assert(d[m] == s[m]);
                assert(d[v] == s[v]);
            }
            assert(!orphan(d, v));
        }
    }
}

/// A tick with nothing queued, on a store as a tick leaves it, changes
/// nothing and has no effect: what the views show does not oscillate.
pub proof fn idle_tick(s: Slots, focus: Option<Handle>, list: Handle, container: Handle)
    requires
        settled(s),
    ensures
        ticked(
            s,
            focus,
            Seq::<ModelTodoAction>::empty(),
            Seq::<ModelInputAction>::empty(),
            Seq::<SetFocus>::empty(),
            list,
            container,
        ) == (FocusState { slots: s, focus, effects: Seq::empty() }),
{
    let b = mutated(s, Seq::<ModelTodoAction>::empty(), Seq::<ModelInputAction>::empty());
    assert(flushed(b) =~= s);
    quiet_is_not_fresh(s);
    materialize_idle(s, list, container);
    let start = Stage { slots: s, effects: Seq::empty(), requests: Seq::empty() };
    propagation_idle(start);
    calm_idle(s);
    finish_without_requests(start, focus);
}

/// The views of a new todo item, as slots, and the store that holds them.
pub open spec fn with_new_todo(s: Slots, text: String) -> Slots {
    s.push(Some(Record::Todo(TodoModel { fresh: false, ..TodoModel::created(text) }))) + as_slots(
        todo_views(TodoModel::created(text), s.len() as Handle),
    )
}

/// A tick that serves one `Create(text)`, on a store as a tick leaves it
/// (with no more slots than a handle can name), adds exactly one todo item
/// with that text, unchecked and not being edited, under the next unused
/// handle, and right behind it exactly the six views of that item, each of
/// which mirrors it. Nothing else changes, the focus stays, and the effects
/// are those that make and link the six views.
pub proof fn creation_invariant(
    s: Slots,
    focus: Option<Handle>,
    text: String,
    list: Handle,
    container: Handle,
)
    requires
        settled(s),
        s.len() <= usize::MAX,
    ensures
        ticked(
            s,
            focus,
            seq![ModelTodoAction::Create(text)],
            Seq::<ModelInputAction>::empty(),
            Seq::<SetFocus>::empty(),
            list,
            container,
        ) == (FocusState {
            slots: with_new_todo(s, text),
            focus,
            effects: create_effects(
                s.len() as int + 1,
                todo_views(TodoModel::created(text), s.len() as Handle),
                todo_widgets(),
            ) + link_effects(todo_links(list, s.len() as int + 1)),
        }),
        forall|j: int|
            0 <= j < 6 ==> (#[trigger] todo_views(
                TodoModel::created(text),
                s.len() as Handle,
            )[j]).model == s.len() as Handle,
        settled(with_new_todo(s, text)),
{
    let h = s.len() as int;
    let t0 = TodoModel::created(text);
    lone_todo_action(s, ModelTodoAction::Create(text));
    let b = mutated(s, seq![ModelTodoAction::Create(text)], Seq::<ModelInputAction>::empty());
    assert(b.spawned =~= seq![Record::Todo(t0)]);
    let s1 = flushed(b);
    assert(s1 =~= s.push(Some(Record::Todo(t0))));
    let start = Stage { slots: s1, effects: Seq::empty(), requests: Seq::empty() };
    quiet_is_not_fresh(s);
    assert forall|k: int| 0 <= k < h implies !fresh_todo(s1, k) && !fresh_input(s1, k) by {
        assert(s1[k] == s[k]);
        assert(!fresh_todo(s, k) && !fresh_input(s, k));
    };
    todos_shown_idle(start, list, h as nat);
    assert(todos_shown(start, list, (h + 1) as nat) == todo_shown(start, list, h));
    let rows = todo_shown(start, list, h);
    let views = todo_views(t0, h as Handle);
    assert(rows.slots =~= with_new_todo(s, text));
    assert(rows.effects =~= create_effects(h + 1, views, todo_widgets()) + link_effects(
        todo_links(list, h + 1),
    ));
    let r = rows.slots;
    new_todo_settled(s, text);
    quiet_is_not_fresh(r);
    inputs_shown_idle(rows, container, r.len());
    assert(materialized(s1, list, container) == rows);
    propagation_idle(rows);
    calm_idle(r);
    finish_without_requests(rows, focus);
}

/// The store `s` with a new composition buffer and its view behind it.
pub open spec fn with_new_input(s: Slots, text: String) -> Slots {
    s.push(Some(Record::Input(InputModel { fresh: false, ..InputModel::created(text) })))
        + as_slots(input_views(InputModel::created(text), s.len() as Handle))
}

/// A tick that serves one `Create(text)` for a composition buffer, on a
/// store as a tick leaves it (with room for two more handles), adds exactly
/// one buffer with that text, not being edited, under the next unused
/// handle, and right behind it exactly one input view that mirrors it. The
/// focus moves to that view, which stays locked until the buffer is asked
/// to be edited; the view that held the focus before is locked.
pub proof fn input_creation_tick(
    s: Slots,
    focus: Option<Handle>,
    text: String,
    list: Handle,
    container: Handle,
)
    requires
        settled(s),
        s.len() + 1 <= usize::MAX,
    ensures
        ({
            let view = (s.len() + 1) as Handle;
            let w = ticked(
                s,
                focus,
                Seq::<ModelTodoAction>::empty(),
                seq![ModelInputAction::Create(text)],
                Seq::<SetFocus>::empty(),
                list,
                container,
            );
            &&& w.slots == released(with_new_input(s, text), focus)
            &&& w.focus == Some(view)
            &&& w.effects == create_effects(
                s.len() as int + 1,
                input_views(InputModel::created(text), s.len() as Handle),
                seq![Widget::Editor],
            ) + link_effects(seq![(container, view)]) + refocus_effects(
                with_new_input(s, text),
                focus,
                Some(view),
            )
            &&& input_at(w.slots, s.len() as int) && !the_input(w.slots, s.len() as int).editing
            &&& view_at(w.slots, view as int) && !the_view(w.slots, view as int).editable
            &&& the_view(w.slots, view as int).model == s.len()
        }),
{
    let h = s.len() as int;
    let view = (h + 1) as Handle;
    let t0 = InputModel::created(text);
    lone_input_action(s, ModelInputAction::Create(text));
    let b = mutated(s, Seq::<ModelTodoAction>::empty(), seq![ModelInputAction::Create(text)]);
    assert(b.spawned =~= seq![Record::Input(t0)]);
    let s1 = flushed(b);
    assert(s1 =~= s.push(Some(Record::Input(t0))));
    let start = Stage { slots: s1, effects: Seq::empty(), requests: Seq::empty() };
    quiet_is_not_fresh(s);
    assert forall|k: int| 0 <= k < h + 1 implies !fresh_todo(s1, k) by {
        if k < h {
            assert(s1[k] == s[k]);
            assert(!fresh_todo(s, k));
        }
    };
    todos_shown_idle(start, list, (h + 1) as nat);
    assert forall|k: int| 0 <= k < h implies !fresh_input(s1, k) by {
        assert(s1[k] == s[k]);
        assert(!fresh_input(s, k));
    };
    inputs_shown_idle(start, container, h as nat);
    assert(inputs_shown(start, container, (h + 1) as nat) == input_shown(start, container, h));
    let rows = input_shown(start, container, h);
    let views = input_views(t0, h as Handle);
    let r = with_new_input(s, text);
    assert(rows.slots =~= r);
    assert(rows.effects =~= create_effects(h + 1, views, seq![Widget::Editor]) + link_effects(
        seq![(container, view)],
    ));
    assert(rows.requests =~= seq![SetFocus(Some(view))]);
    assert(materialized(s1, list, container) == rows);
    new_input_settled(s, text);
    propagation_idle(rows);
    let w0 = FocusState { slots: r, focus, effects: rows.effects };
    reveal_with_fuel(focus_run, 2);
    assert(focus_run(w0, rows.requests, 1) == focus_step(w0, rows.requests[0]));
    let f = refocused(r, focus, Some(view));
    refocus_keeps_settled(r, focus, Some(view));
    calm_idle(f);
    cascade_idle(FocusState { slots: f, focus: Some(view), effects: focus_step(
        w0,
        rows.requests[0],
    ).effects });
    let rel = released(r, focus);
    assert(r[h + 1] == as_slots(views)[0]);
    assert(!the_view(r, h + 1).editable);
    assert(rel[h + 1] == r[h + 1]);
    assert(rel[h] == r[h]);
    assert(!wants_edit(rel, view as int));
    assert(f == rel);
}

/// The store `s` once the todo item under `h` has the text `text` and each
/// of its text views shows it.
pub open spec fn text_shown(s: Slots, h: Handle, text: String) -> Slots {
    Seq::new(
        s.len(),
        |k: int|
            if k == h {
                Some(Record::Todo(TodoModel { text, ..the_todo(s, h as int) }))
            } else if view_at(s, k) && the_view(s, k).role == Role::TodoTextView && the_view(
                s,
                k,
            ).model == h {
                Some(Record::View(ViewRecord { text: Some(text), ..the_view(s, k) }))
            } else {
                s[k]
            },
    )
}

/// A tick that serves one `UpdateText(h, text)`, on a store as a tick leaves
/// it, writes the text into the todo item under `h` and into each of its
/// text views, and changes nothing else. Serving the same action again
/// leaves the store as it is: the views have converged.
pub proof fn update_text_tick(
    s: Slots,
    focus: Option<Handle>,
    h: Handle,
    text: String,
    list: Handle,
    container: Handle,
)
    requires
        settled(s),
        todo_at(s, h as int),
    ensures
        ({
            let w = ticked(
                s,
                focus,
                seq![ModelTodoAction::UpdateText(h, text)],
                Seq::<ModelInputAction>::empty(),
                Seq::<SetFocus>::empty(),
                list,
                container,
            );
            &&& w.slots == text_shown(s, h, text)
            &&& w.focus == focus
        }),
        text_shown(text_shown(s, h, text), h, text) == text_shown(s, h, text),
        settled(text_shown(s, h, text)),
{
    lone_todo_action(s, ModelTodoAction::UpdateText(h, text));
    let b = mutated(
        s,
        seq![ModelTodoAction::UpdateText(h, text)],
        Seq::<ModelInputAction>::empty(),
    );
    let s1 = text_written(s, h, text);
    assert(b.slots == s1);
    assert(flushed(b) =~= s1);
    quiet_is_not_fresh(s);
    assert forall|k: int| !fresh_todo(s1, k) && !fresh_input(s1, k) by {
        if 0 <= k < s.len() && k != h {
            assert(s1[k] == s[k]);
        }
        assert(!fresh_todo(s, k) && !fresh_input(s, k));
    };
    materialize_idle(s1, list, container);
    let start = Stage { slots: s1, effects: Seq::empty(), requests: Seq::empty() };
    text_propagates(s, h, text);
    text_shown_settled(s, h, text);
    finish_without_requests(propagated(start), focus);
    assert(text_shown(text_shown(s, h, text), h, text) =~= text_shown(s, h, text));
}

/// The store `s` once the todo item under `h` has the flag `checked` and
/// each of its text and checkmark views is in the style that stands for it.
pub open spec fn checked_shown(s: Slots, h: Handle, checked: bool) -> Slots {
    Seq::new(
        s.len(),
        |k: int|
            if k == h {
                Some(Record::Todo(TodoModel { checked, ..the_todo(s, h as int) }))
            } else if view_at(s, k) && (the_view(s, k).role == Role::TodoTextView || the_view(
                s,
                k,
            ).role == Role::TodoCheckmarkView) && the_view(s, k).model == h {
                Some(Record::View(ViewRecord { style: checked_style(checked), ..the_view(s, k) }))
            } else {
                s[k]
            },
    )
}

/// A tick that serves one `UpdateChecked(h, checked)`, on a store as a tick
/// leaves it, writes the flag into the todo item under `h`, puts each of its
/// text and checkmark views into the style that stands for the flag
/// (completed for `true`, normal for `false`), and changes nothing else.
pub proof fn update_checked_tick(
    s: Slots,
    focus: Option<Handle>,
    h: Handle,
    checked: bool,
    list: Handle,
    container: Handle,
)
    requires
        settled(s),
        todo_at(s, h as int),
    ensures
        ({
            let w = ticked(
                s,
                focus,
                seq![ModelTodoAction::UpdateChecked(h, checked)],
                Seq::<ModelInputAction>::empty(),
                Seq::<SetFocus>::empty(),
                list,
                container,
            );
            &&& w.slots == checked_shown(s, h, checked)
            &&& w.focus == focus
        }),
{
    lone_todo_action(s, ModelTodoAction::UpdateChecked(h, checked));
    let b = mutated(
        s,
        seq![ModelTodoAction::UpdateChecked(h, checked)],
        Seq::<ModelInputAction>::empty(),
    );
    let s1 = checked_written(s, h, checked);
    assert(b.slots == s1);
    assert(flushed(b) =~= s1);
    quiet_is_not_fresh(s);
    assert forall|k: int| !fresh_todo(s1, k) && !fresh_input(s1, k) by {
        if 0 <= k < s.len() && k != h {
            assert(s1[k] == s[k]);
        }
        assert(!fresh_todo(s, k) && !fresh_input(s, k));
    };
    materialize_idle(s1, list, container);
    let start = Stage { slots: s1, effects: Seq::empty(), requests: Seq::empty() };
    checked_propagates(s, h, checked);
    let goal = checked_shown(s, h, checked);
    keeps_no_orphan(s, goal);
    finish_without_requests(propagated(start), focus);
}

/// A tick that serves one `Edit(h, true)`, on a store as a tick leaves it,
/// gives the focus to the last text view of the todo item under `h` and
/// opens it for typing.
pub proof fn edit_tick(
    s: Slots,
    focus: Option<Handle>,
    h: Handle,
    v: Handle,
    list: Handle,
    container: Handle,
)
    requires
        settled(s),
        todo_at(s, h as int),
        view_at(s, v as int),
        the_view(s, v as int).role == Role::TodoTextView,
        the_view(s, v as int).model == h,
        forall|u: int|
            v < u && view_at(s, u) && the_view(s, u).role == Role::TodoTextView ==> (
            #[trigger] the_view(s, u)).model != h,
    ensures
        ({
            let w = ticked(
                s,
                focus,
                seq![ModelTodoAction::Edit(h, true)],
                Seq::<ModelInputAction>::empty(),
                Seq::<SetFocus>::empty(),
                list,
                container,
            );
            &&& w.focus == Some(v)
            &&& view_at(w.slots, v as int) && the_view(w.slots, v as int).editable
            &&& todo_at(w.slots, h as int) && the_todo(w.slots, h as int).editing
        }),
{
    let t = the_todo(s, h as int);
    assert(t.quiet());
    lone_todo_action(s, ModelTodoAction::Edit(h, true));
    let b = mutated(s, seq![ModelTodoAction::Edit(h, true)], Seq::<ModelInputAction>::empty());
    let s1 = s.update(
        h as int,
        Some(Record::Todo(TodoModel { editing: true, editing_changed: true, ..t })),
    );
    assert(b.slots == s1);
    assert(flushed(b) =~= s1);
    quiet_is_not_fresh(s);
    assert forall|k: int| !fresh_todo(s1, k) && !fresh_input(s1, k) by {
        if 0 <= k < s.len() && k != h {
            assert(s1[k] == s[k]);
        }
        assert(!fresh_todo(s, k) && !fresh_input(s, k));
    };
    materialize_idle(s1, list, container);
    let start = Stage { slots: s1, effects: Seq::empty(), requests: Seq::empty() };
    assert forall|k: int| view_at(s1, k) implies !rule_fires(
        Rule::TodoText,
        s1,
        #[trigger] the_view(s1, k),
    ) && !rule_fires(Rule::TodoTextChecked, s1, the_view(s1, k)) && !rule_fires(
        Rule::TodoCheckmarkChecked,
        s1,
        the_view(s1, k),
    ) && !rule_fires(Rule::InputText, s1, the_view(s1, k)) by {
        let m = the_view(s1, k).model as int;
        if 0 <= m < s.len() && m != h {
            assert(s1[m] == s[m]);
            if todo_at(s, m) {
                assert(the_todo(s, m).quiet());
            }
            if input_at(s, m) {
                assert(the_input(s, m).quiet());
            }
        }
    };
    sweep_without_pulse(Rule::TodoText, s1, s1.len());
    sweep_without_pulse(Rule::TodoTextChecked, s1, s1.len());
    sweep_without_pulse(Rule::TodoCheckmarkChecked, s1, s1.len());
    sweep_without_pulse(Rule::InputText, s1, s1.len());
    edit_requests(s, h, v);
    let shown = propagated(start);
    assert(shown.slots == s1);
    let requests = todo_focus_requests(s1, true, s1.len());
    assert(shown.requests =~= requests);
    let n = requests.len();
    let w0 = FocusState { slots: s1, focus, effects: shown.effects };
    focus_run_touches_flags_only(w0, requests, (n - 1) as nat);
    let p = focus_run(w0, requests, (n - 1) as nat);
    let r = released(p.slots, p.focus);
    let f = refocused(p.slots, p.focus, Some(v));
    assert(focus_run(w0, requests, n) == focus_step(p, requests[n - 1]));
    assert(p.slots[v as int] == s1[v as int] || view_at(p.slots, v as int));
    assert(p.slots[h as int] == s1[h as int]);
    assert(r[h as int] == p.slots[h as int]);
    assert(r[v as int] == p.slots[v as int] || (view_at(r, v as int) && the_view(r, v as int).role
        == the_view(p.slots, v as int).role && the_view(r, v as int).model == the_view(
        p.slots,
        v as int,
    ).model));
    assert(wants_edit(r, v as int));
    assert(the_view(f, v as int).editable);
    assert(f[h as int] == s1[h as int]);
    focus_run_touches_flags_only(w0, requests, n);
    let c = calmed(f);
    assert(c[v as int] == calm_slot(f[v as int]));
    assert(c[h as int] == calm_slot(f[h as int]));
    assert(!any_orphan(c)) by {
        assert forall|k: int| !orphan(c, k) by {
            if view_at(c, k) {
                assert(c[k] == calm_slot(f[k]));
                assert(view_at(f, k));
                assert(view_at(s1, k));
                assert(s1[k] == s[k]);
                assert(!orphan(s, k));
                let m = the_view(s, k).model as int;
                assert(the_view(c, k).model == the_view(s, k).model);
                assert(model_at(s, m));
                assert(model_at(s1, m));
                assert(f[m] == s1[m]);
                assert(c[m] == calm_slot(f[m]));
            }
        };
    };
}

/// A tick that serves one `Delete(h)`, on a store as a tick leaves it, ends
/// with the todo item under `h` gone and no view left that mirrors `h`. The
/// focus is on nothing afterwards exactly where it was on such a view;
/// wherever else it was, it stays.
pub proof fn delete_tick(
    s: Slots,
    focus: Option<Handle>,
    h: Handle,
    list: Handle,
    container: Handle,
)
    requires
        settled(s),
        todo_at(s, h as int),
    ensures
        ({
            let w = ticked(
                s,
                focus,
                seq![ModelTodoAction::Delete(h)],
                Seq::<ModelInputAction>::empty(),
                Seq::<SetFocus>::empty(),
                list,
                container,
            );
            &&& w == cascaded(
                FocusState { slots: s.update(h as int, None), focus, effects: Seq::empty() },
            )
            &&& !live(w.slots, h as int)
            &&& forall|v: int| view_at(w.slots, v) ==> (#[trigger] the_view(w.slots, v)).model != h
            &&& w.focus == (if focus_on_view_of(s, focus, h) {
                None
            } else {
                focus
            })
        }),
{
    lone_todo_action(s, ModelTodoAction::Delete(h));
    let b = mutated(s, seq![ModelTodoAction::Delete(h)], Seq::<ModelInputAction>::empty());
    assert(b.despawned =~= seq![h]);
    let d = s.update(h as int, None);
    assert forall|i: int| marked(b.despawned, i) == (i == h) by {
        if i == h {
            assert(b.despawned[0] == i);
        }
    };
    assert(flushed(b) =~= d);
    assert(all_quiet(d)) by {
        assert forall|k: int| todo_at(d, k) implies (#[trigger] the_todo(d, k)).quiet() by {
            assert(d[k] == s[k]);
            assert(the_todo(s, k).quiet());
        };
        assert forall|k: int| input_at(d, k) implies (#[trigger] the_input(d, k)).quiet() by {
            assert(d[k] == s[k]);
            assert(the_input(s, k).quiet());
        };
    };
    quiet_is_not_fresh(d);
    materialize_idle(d, list, container);
    let start = Stage { slots: d, effects: Seq::empty(), requests: Seq::empty() };
    propagation_idle(start);
    calm_idle(d);
    deletion_cascade(s, focus, Seq::empty(), h);
}

/// Deleting one todo item does not reach the others: after the tick that
/// serves `Delete(h)`, every record but the item under `h` and the views
/// that mirror it is as it was, and a focus that was not on one of those
/// views is where it was.
pub proof fn deletion_spares_the_rest(
    s: Slots,
    focus: Option<Handle>,
    h: Handle,
    list: Handle,
    container: Handle,
)
    requires
        settled(s),
        todo_at(s, h as int),
    ensures
        ({
            let w = ticked(
                s,
                focus,
                seq![ModelTodoAction::Delete(h)],
                Seq::<ModelInputAction>::empty(),
                Seq::<SetFocus>::empty(),
                list,
                container,
            );
            &&& forall|k: int|
                0 <= k < s.len() && k != h && !(view_at(s, k) && the_view(s, k).model == h)
                    ==> #[trigger] w.slots[k] == s[k]
            &&& !focus_on_view_of(s, focus, h) ==> w.focus == focus
        }),
{
    delete_tick(s, focus, h, list, container);
    deletion_cascade(s, focus, Seq::empty(), h);
}

/// Showing the first `n` records of a store builds exactly one subtree for
/// each todo item among them that is fresh, and nothing else: the store
/// grows by six views for each such item; each item's six views stand
/// together from its row on, each mirrors the item, and the effects make
/// them and link them, the row under the list container; every view that
/// was added belongs to the subtree of the item that it mirrors; and there
/// are exactly as many new rows as there were fresh items. Every record
/// that was there is as it was, but that the items are no longer fresh.
pub proof fn todos_shown_rows(w: Stage, list: Handle, n: nat)
    requires
        n <= w.slots.len(),
        w.slots.len() <= usize::MAX,
    ensures
        shown_well(w, todos_shown(w, list, n), list, n),
    decreases n,
{
    if n == 0 {
        assert(w.effects.subrange(0, w.effects.len() as int) =~= w.effects);
    } else {
        let k = n - 1;
        todos_shown_rows(w, list, k as nat);
        let p = todos_shown(w, list, k as nat);
        if fresh_todo(w.slots, k) {
            step_grows(w, p, list, k);
            step_blocks(w, p, list, k);
            step_owns(w, p, list, k);
            step_counts(w, p, list, k);
        } else {
            step_idle(w, p, list, k);
        }
    }
}

/// Among the views that the showing of a store's records added, the rows
/// are exactly the first views of the subtrees: the view under `i` is a row
/// exactly if it stands at the row of the item that it mirrors. So each
/// fresh item has one row of its own, and there is no other row.
pub proof fn rows_are_first(w: Stage, list: Handle, i: int)
    requires
        w.slots.len() <= usize::MAX,
        w.slots.len() <= i < todos_shown(w, list, w.slots.len()).slots.len(),
    ensures
        ({
            let s = w.slots;
            let r = todos_shown(w, list, s.len()).slots;
            let m = the_view(r, i).model as int;
            &&& view_at(r, i) && fresh_todo(s, m)
            &&& r[i] == as_slots(todo_views(the_todo(s, m), m as Handle))[i - row_of(s, m)]
            &&& (the_view(r, i).role == Role::TodoRootView) == (i == row_of(s, m))
        }),
{
    let s = w.slots;
    todos_shown_rows(w, list, s.len());
    let shown = todos_shown(w, list, s.len());
    let r = shown.slots;
    assert(spawned_for(r, s, s.len(), i));
    let m = the_view(r, i).model as int;
    assert(block_at(shown, w, list, m));
    let row = row_of(s, m);
    assert(r.subrange(row, row + 6)[i - row] == r[i]);
}

} // verus!
