//! Propagation of changed model fields into the views that show them.
use vstd::prelude::*;
use crate::effect::Effect;
use crate::focus::SetFocus;
use crate::record::{
    Handle, InputModel, Record, Role, Slots, TodoModel, ViewRecord, checked_style,
    display_checked, input_at, the_input, the_todo, the_view, todo_at, view_at,
};
use crate::store::Store;

verus! {

/// One propagation rule: a model field paired with the role of the views that show it.
#[derive(Clone, Copy, Debug, PartialEq, Eq, Structural)]
pub enum Rule {
    /// The text of a todo item, shown by its text view.
    TodoText,
    /// The `checked` flag of a todo item, shown by the style of its text view.
    TodoTextChecked,
    /// The `checked` flag of a todo item, shown by the style of its checkmark views.
    TodoCheckmarkChecked,
    /// The text of the composition buffer, shown by the input view.
    InputText,
}

/// Rule `rule` has something to push into a view `v`: the view has the rule's
/// role, and the model it mirrors exists, is of the rule's kind, and carries
/// the pulse of the rule's field.
pub open spec fn rule_fires(rule: Rule, s: Slots, v: ViewRecord) -> bool {
    let m = v.model as int;
    match rule {
        Rule::TodoText => v.role == Role::TodoTextView && todo_at(s, m) && the_todo(
            s,
            m,
        ).text_changed,
        Rule::TodoTextChecked => v.role == Role::TodoTextView && todo_at(s, m) && the_todo(
            s,
            m,
        ).checked_changed,
        Rule::TodoCheckmarkChecked => v.role == Role::TodoCheckmarkView && todo_at(s, m)
            && the_todo(s, m).checked_changed,
        Rule::InputText => v.role == Role::TodoInput && input_at(s, m) && the_input(
            s,
            m,
        ).text_changed,
    }
}

/// The view once the rule has pushed the model's field into it.
pub open spec fn rule_result(rule: Rule, s: Slots, v: ViewRecord) -> ViewRecord {
    let m = v.model as int;
    match rule {
        Rule::TodoText => ViewRecord { text: Some(the_todo(s, m).text), ..v },
        Rule::TodoTextChecked => ViewRecord { style: checked_style(the_todo(s, m).checked), ..v },
        Rule::TodoCheckmarkChecked => ViewRecord {
            style: checked_style(the_todo(s, m).checked),
            ..v
        },
        Rule::InputText => ViewRecord { text: Some(the_input(s, m).text), ..v },
    }
}

/// The effect that tells the outside what the rule pushed into view `h`.
pub open spec fn rule_effect(rule: Rule, s: Slots, h: Handle, v: ViewRecord) -> Effect {
    let m = v.model as int;
    match rule {
        Rule::TodoText => Effect::SetText { view: h, text: the_todo(s, m).text },
        Rule::TodoTextChecked => Effect::SetStyle {
            view: h,
            style: checked_style(the_todo(s, m).checked),
        },
        Rule::TodoCheckmarkChecked => Effect::SetStyle {
            view: h,
            style: checked_style(the_todo(s, m).checked),
        },
        Rule::InputText => Effect::SetText { view: h, text: the_input(s, m).text },
    }
}

/// Slot `k` after a sweep of `rule` over the store `s`: a view for which the
/// rule fires shows the new value, and every other slot is as it was.
pub open spec fn swept_slot(rule: Rule, s: Slots, k: int) -> Option<Record> {
    if view_at(s, k) && rule_fires(rule, s, the_view(s, k)) {
        Some(Record::View(rule_result(rule, s, the_view(s, k))))
    } else {
        s[k]
    }
}

/// The store after a sweep of `rule`.
pub open spec fn swept(rule: Rule, s: Slots) -> Slots {
    Seq::new(s.len(), |k: int| swept_slot(rule, s, k))
}

/// The effects of a sweep of `rule` over the first `n` slots, in slot order.
pub open spec fn sweep_effects(rule: Rule, s: Slots, n: nat) -> Seq<Effect>
    decreases n,
{
    if n == 0 {
        Seq::empty()
    } else {
        let k = n - 1;
        let before = sweep_effects(rule, s, k as nat);
        if view_at(s, k) && rule_fires(rule, s, the_view(s, k)) {
            before.push(rule_effect(rule, s, k as Handle, the_view(s, k)))
        } else {
            before
        }
    }
}

/// What `rule` pushes into `view`, if it fires: the new view and the effect.
fn fire(rule: Rule, store: &Store, h: Handle, view: &ViewRecord) -> (r: Option<
    (ViewRecord, Effect),
>)
    ensures
        r.is_some() == rule_fires(rule, store@, *view),
        r.is_some() ==> r.unwrap().0 == rule_result(rule, store@, *view) && r.unwrap().1
            == rule_effect(rule, store@, h, *view),
{
    match rule {
        Rule::TodoText => {
            if view.role == Role::TodoTextView {
                match store.todo(view.model) {
                    Some(t) => if t.text_changed {
                        Some(
                            (
                                view.with_text(t.text.clone()),
                                Effect::SetText { view: h, text: t.text.clone() },
                            ),
                        )
                    } else {
                        None
                    },
                    None => None,
                }
            } else {
                None
            }
        },
        Rule::TodoTextChecked => {
            if view.role == Role::TodoTextView {
                match store.todo(view.model) {
                    Some(t) => if t.checked_changed {
                        Some(
                            (
                                view.with_style(display_checked(t.checked)),
                                Effect::SetStyle { view: h, style: display_checked(t.checked) },
                            ),
                        )
                    } else {
                        None
                    },
                    None => None,
                }
            } else {
                None
            }
        },
        Rule::TodoCheckmarkChecked => {
            if view.role == Role::TodoCheckmarkView {
                match store.todo(view.model) {
                    Some(t) => if t.checked_changed {
                        Some(
                            (
                                view.with_style(display_checked(t.checked)),
                                Effect::SetStyle { view: h, style: display_checked(t.checked) },
                            ),
                        )
                    } else {
                        None
                    },
                    None => None,
                }
            } else {
                None
            }
        },
        Rule::InputText => {
            if view.role == Role::TodoInput {
                match store.input(view.model) {
                    Some(t) => if t.text_changed {
                        Some(
                            (
                                view.with_text(t.text.clone()),
                                Effect::SetText { view: h, text: t.text.clone() },
                            ),
                        )
                    } else {
                        None
                    },
                    None => None,
                }
            } else {
                None
            }
        },
    }
}

/// Runs one rule over every view of the store.
pub fn sweep(rule: Rule, store: &mut Store, outbox: &mut Vec<Effect>)
    ensures
        final(store)@ == swept(rule, old(store)@),
        final(outbox)@ == old(outbox)@ + sweep_effects(rule, old(store)@, old(store)@.len()),
{
    let ghost s0 = store@;
    let ghost out0 = outbox@;
    let n = store.len();
    let mut i: usize = 0;
    while i < n
        invariant
            0 <= i <= n,
            n == s0.len(),
            store@.len() == s0.len(),
            forall|k: int| 0 <= k < i ==> #[trigger] store@[k] == swept_slot(rule, s0, k),
            forall|k: int| i <= k < n ==> #[trigger] store@[k] == s0[k],
            outbox@ == out0 + sweep_effects(rule, s0, i as nat),
        decreases n - i,
    {
        let fired = match store.view_record(i) {
            Some(view) => fire(rule, store, i, view),
            None => None,
        };
        match fired {
            Some((next, effect)) => {
                store.put(i, Record::View(next));
                outbox.push(effect);
            },
            None => {},
        }
        i = i + 1;
    }
}

/// Pushes the changed text of every todo item into its text view.
pub fn update_displayed_todos_text(store: &mut Store, outbox: &mut Vec<Effect>)
    ensures
        final(store)@ == swept(Rule::TodoText, old(store)@),
        final(outbox)@ == old(outbox)@ + sweep_effects(
            Rule::TodoText,
            old(store)@,
            old(store)@.len(),
        ),
{
    sweep(Rule::TodoText, store, outbox)
}

/// Pushes the changed `checked` flag of every todo item into the style of its text view.
pub fn update_displayed_todos_text_checked(store: &mut Store, outbox: &mut Vec<Effect>)
    ensures
        final(store)@ == swept(Rule::TodoTextChecked, old(store)@),
        final(outbox)@ == old(outbox)@ + sweep_effects(
            Rule::TodoTextChecked,
            old(store)@,
            old(store)@.len(),
        ),
{
    sweep(Rule::TodoTextChecked, store, outbox)
}

/// Pushes the changed `checked` flag of every todo item into its checkmark views.
pub fn update_displayed_todos_checkmark_checked(store: &mut Store, outbox: &mut Vec<Effect>)
    ensures
        final(store)@ == swept(Rule::TodoCheckmarkChecked, old(store)@),
        final(outbox)@ == old(outbox)@ + sweep_effects(
            Rule::TodoCheckmarkChecked,
            old(store)@,
            old(store)@.len(),
        ),
{
    sweep(Rule::TodoCheckmarkChecked, store, outbox)
}

/// Pushes the changed text of the composition buffer into the input view.
pub fn update_displayed_input_text(store: &mut Store, outbox: &mut Vec<Effect>)
    ensures
        final(store)@ == swept(Rule::InputText, old(store)@),
        final(outbox)@ == old(outbox)@ + sweep_effects(
            Rule::InputText,
            old(store)@,
            old(store)@.len(),
        ),
{
    sweep(Rule::InputText, store, outbox)
}

/// View `v` is the text view of a todo item whose `editing` flag was written
/// and now is `editing`.
pub open spec fn todo_edit_pulse(s: Slots, v: int, editing: bool) -> bool {
    view_at(s, v) && the_view(s, v).role == Role::TodoTextView && todo_at(
        s,
        the_view(s, v).model as int,
    ) && the_todo(s, the_view(s, v).model as int).editing_changed && the_todo(
        s,
        the_view(s, v).model as int,
    ).editing == editing
}

/// View `v` is the input view of a composition buffer whose `editing` flag
/// was written and now is `editing`.
pub open spec fn input_edit_pulse(s: Slots, v: int, editing: bool) -> bool {
    view_at(s, v) && the_view(s, v).role == Role::TodoInput && input_at(
        s,
        the_view(s, v).model as int,
    ) && the_input(s, the_view(s, v).model as int).editing_changed && the_input(
        s,
        the_view(s, v).model as int,
    ).editing == editing
}

/// The focus requests that todo items raise whose `editing` flag was written
/// and now is `editing`, among the first `n` slots: one for each text view
/// concerned, in slot order.
pub open spec fn todo_focus_requests(s: Slots, editing: bool, n: nat) -> Seq<SetFocus>
    decreases n,
{
    if n == 0 {
        Seq::empty()
    } else {
        let k = n - 1;
        let before = todo_focus_requests(s, editing, k as nat);
        if todo_edit_pulse(s, k, editing) {
            before.push(SetFocus(Some(k as Handle)))
        } else {
            before
        }
    }
}

/// The focus requests that composition buffers raise whose `editing` flag
/// was written and now is `editing`, among the first `n` slots.
pub open spec fn input_focus_requests(s: Slots, editing: bool, n: nat) -> Seq<SetFocus>
    decreases n,
{
    if n == 0 {
        Seq::empty()
    } else {
        let k = n - 1;
        let before = input_focus_requests(s, editing, k as nat);
        if input_edit_pulse(s, k, editing) {
            before.push(SetFocus(Some(k as Handle)))
        } else {
            before
        }
    }
}

/// Asks for the focus on the text view of every todo item whose `editing`
/// flag was written and now is `editing`. The focus coordinator then locks
/// or opens the view.
pub fn update_focus_todo(store: &Store, editing: bool, requests: &mut Vec<SetFocus>)
    ensures
        final(requests)@ == old(requests)@ + todo_focus_requests(store@, editing, store@.len()),
{
    let ghost start = requests@;
    let n = store.len();
    let mut i: usize = 0;
    while i < n
        invariant
            0 <= i <= n,
            n == store@.len(),
            requests@ == start + todo_focus_requests(store@, editing, i as nat),
        decreases n - i,
    {
        let pulse = match store.view_record(i) {
            Some(view) => view.role == Role::TodoTextView && match store.todo(view.model) {
                Some(t) => t.editing_changed && t.editing == editing,
                None => false,
            },
            None => false,
        };
        if pulse {
            requests.push(SetFocus(Some(i)));
        }
        i = i + 1;
    }
}

/// Asks for the focus on the input view of every composition buffer whose
/// `editing` flag was written and now is `editing`.
pub fn update_focus_main_input(store: &Store, editing: bool, requests: &mut Vec<SetFocus>)
    ensures
        final(requests)@ == old(requests)@ + input_focus_requests(store@, editing, store@.len()),
{
    let ghost start = requests@;
    let n = store.len();
    let mut i: usize = 0;
    while i < n
        invariant
            0 <= i <= n,
            n == store@.len(),
            requests@ == start + input_focus_requests(store@, editing, i as nat),
        decreases n - i,
    {
        let pulse = match store.view_record(i) {
            Some(view) => view.role == Role::TodoInput && match store.input(view.model) {
                Some(t) => t.editing_changed && t.editing == editing,
                None => false,
            },
            None => false,
        };
        if pulse {
            requests.push(SetFocus(Some(i)));
        }
        i = i + 1;
    }
}

/// A model record with every pulse consumed; any other slot as it is.
pub open spec fn calm_slot(r: Option<Record>) -> Option<Record> {
    match r {
        Some(Record::Todo(t)) => Some(
            Record::Todo(
                TodoModel {
                    fresh: false,
                    text_changed: false,
                    checked_changed: false,
                    editing_changed: false,
                    ..t
                },
            ),
        ),
        Some(Record::Input(m)) => Some(
            Record::Input(
                InputModel { fresh: false, text_changed: false, editing_changed: false, ..m },
            ),
        ),
        _ => r,
    }
}

/// The store with every pulse consumed.
pub open spec fn calmed(s: Slots) -> Slots {
    Seq::new(s.len(), |k: int| calm_slot(s[k]))
}

/// Ends the life of every pulse: after this no model record carries one.
pub fn clear_pulses(store: &mut Store)
    ensures
        final(store)@ == calmed(old(store)@),
{
    let ghost s0 = store@;
    let n = store.len();
    let mut i: usize = 0;
    while i < n
        invariant
            0 <= i <= n,
            n == s0.len(),
            store@.len() == s0.len(),
            forall|k: int| 0 <= k < i ==> #[trigger] store@[k] == calm_slot(s0[k]),
            forall|k: int| i <= k < n ==> #[trigger] store@[k] == s0[k],
        decreases n - i,
    {
        let next = match store.get(i) {
            Some(Record::Todo(t)) => Some(
                Record::Todo(
                    TodoModel {
                        text: t.text.clone(),
                        checked: t.checked,
                        editing: t.editing,
                        fresh: false,
                        text_changed: false,
                        checked_changed: false,
                        editing_changed: false,
                    },
                ),
            ),
            Some(Record::Input(m)) => Some(
                Record::Input(
                    InputModel {
                        text: m.text.clone(),
                        editing: m.editing,
                        fresh: false,
                        text_changed: false,
                        editing_changed: false,
                    },
                ),
            ),
            _ => None,
        };
        match next {
            Some(r) => {
                store.put(i, r);
            },
            None => {},
        }
        i = i + 1;
    }
}

} // verus!
