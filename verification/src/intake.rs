//! Intake: from what the outside reports to actions on the models.
use vstd::prelude::*;
use crate::action::{ModelInputAction, ModelTodoAction};
use crate::focus::Focus;
use crate::record::{
    Handle, Role, Slots, input_at, the_input, the_todo, the_view, todo_at, view_at,
};
use crate::store::Store;

verus! {

/// What the outside reports to the engine.
#[derive(Debug, PartialEq, Eq)]
pub enum Notification {
    /// The pointer was pressed on, or released from, the widget of a view.
    Pointer { view: Handle, pressed: bool },
    /// The widget of a view now holds this text.
    TextChanged { view: Handle, text: String },
    /// The submit key was pressed.
    Enter,
}

/// `v` names a view of the given role.
pub open spec fn shows(s: Slots, v: int, role: Role) -> bool {
    view_at(s, v) && the_view(s, v).role == role
}

/// The model that view `v` mirrors.
pub open spec fn model_of(s: Slots, v: int) -> Handle {
    the_view(s, v).model
}

/// A press on a delete button asks for the deletion of its todo item.
pub open spec fn deleter_actions(s: Slots, v: int, pressed: bool) -> Seq<ModelTodoAction> {
    if pressed && shows(s, v, Role::TodoDeleterView) {
        seq![ModelTodoAction::Delete(model_of(s, v))]
    } else {
        Seq::empty()
    }
}

/// A press on a checkmark view asks to flip the `checked` flag of its todo
/// item; where that item is gone, it asks for nothing.
pub open spec fn checkmark_actions(s: Slots, v: int, pressed: bool) -> Seq<ModelTodoAction> {
    if pressed && shows(s, v, Role::TodoCheckmarkView) && todo_at(s, model_of(s, v) as int) {
        seq![
            ModelTodoAction::UpdateChecked(
                model_of(s, v),
                !the_todo(s, model_of(s, v) as int).checked,
            ),
        ]
    } else {
        Seq::empty()
    }
}

/// One `Edit(.., false)` for each todo item among the first `n` records that
/// is being edited.
pub open spec fn todo_releases(s: Slots, n: nat) -> Seq<ModelTodoAction>
    decreases n,
{
    if n == 0 {
        Seq::empty()
    } else {
        let k = n - 1;
        let before = todo_releases(s, k as nat);
        if todo_at(s, k) && the_todo(s, k).editing {
            before.push(ModelTodoAction::Edit(k as Handle, false))
        } else {
            before
        }
    }
}

/// One `Edit(.., false)` for each composition buffer among the first `n`
/// records that is being edited.
pub open spec fn input_releases(s: Slots, n: nat) -> Seq<ModelInputAction>
    decreases n,
{
    if n == 0 {
        Seq::empty()
    } else {
        let k = n - 1;
        let before = input_releases(s, k as nat);
        if input_at(s, k) && the_input(s, k).editing {
            before.push(ModelInputAction::Edit(k as Handle, false))
        } else {
            before
        }
    }
}

/// What a press on the text view of a todo item asks of the todo items.
pub open spec fn text_todo_actions(s: Slots, v: int, pressed: bool) -> Seq<ModelTodoAction> {
    if pressed && shows(s, v, Role::TodoTextView) {
        todo_releases(s, s.len()).push(ModelTodoAction::Edit(model_of(s, v), true))
    } else {
        Seq::empty()
    }
}

/// What a press on the text view of a todo item asks of the composition buffers.
pub open spec fn text_input_actions(s: Slots, v: int, pressed: bool) -> Seq<ModelInputAction> {
    if pressed && shows(s, v, Role::TodoTextView) {
        input_releases(s, s.len())
    } else {
        Seq::empty()
    }
}

/// What a press on an input view asks of the todo items.
pub open spec fn input_todo_actions(s: Slots, v: int, pressed: bool) -> Seq<ModelTodoAction> {
    if pressed && shows(s, v, Role::TodoInput) {
        todo_releases(s, s.len())
    } else {
        Seq::empty()
    }
}

/// What a press on an input view asks of the composition buffers.
pub open spec fn input_input_actions(s: Slots, v: int, pressed: bool) -> Seq<ModelInputAction> {
    if pressed && shows(s, v, Role::TodoInput) {
        input_releases(s, s.len()).push(ModelInputAction::Edit(model_of(s, v), true))
    } else {
        Seq::empty()
    }
}

/// The enter key submits: the focus is on an input view whose composition
/// buffer exists.
pub open spec fn submits(s: Slots, focus: Option<Handle>) -> bool {
    focus is Some && shows(s, focus->0 as int, Role::TodoInput) && input_at(
        s,
        model_of(s, focus->0 as int) as int,
    )
}

/// The action clears the text of the composition buffer under `m`.
pub open spec fn clears(a: ModelInputAction, m: Handle) -> bool {
    a matches ModelInputAction::UpdateText(h, text) && h == m && text@.len() == 0
}

/// A change of text in a text view asks to write the text of its todo item.
pub open spec fn cosmic_todo_actions(s: Slots, v: int, text: String) -> Seq<ModelTodoAction> {
    if shows(s, v, Role::TodoTextView) {
        seq![ModelTodoAction::UpdateText(model_of(s, v), text)]
    } else {
        Seq::empty()
    }
}

/// A change of text in an input view asks to write the text of its
/// composition buffer.
pub open spec fn cosmic_input_actions(s: Slots, v: int, text: String) -> Seq<ModelInputAction> {
    if shows(s, v, Role::TodoInput) {
        seq![ModelInputAction::UpdateText(model_of(s, v), text)]
    } else {
        Seq::empty()
    }
}

impl Store {
    /// The model of the view under `v`, where `v` names a view of role `role`.
    pub fn target(&self, v: Handle, role: Role) -> (m: Option<Handle>)
        ensures
            m.is_some() == shows(self@, v as int, role),
            m.is_some() ==> m.unwrap() == model_of(self@, v as int),
    {
        match self.view_record(v) {
            Some(view) => if view.role == role {
                Some(view.model)
            } else {
                None
            },
            None => None,
        }
    }
}

pub fn handle_deleter_interaction(
    store: &Store,
    view: Handle,
    pressed: bool,
    todo_actions: &mut Vec<ModelTodoAction>,
)
    ensures
        final(todo_actions)@ == old(todo_actions)@ + deleter_actions(store@, view as int, pressed),
{
    if pressed {
        match store.target(view, Role::TodoDeleterView) {
            Some(m) => {
                todo_actions.push(ModelTodoAction::Delete(m));
            },
            None => {},
        }
    }
}

pub fn handle_checkmark_interaction(
    store: &Store,
    view: Handle,
    pressed: bool,
    todo_actions: &mut Vec<ModelTodoAction>,
)
    ensures
        final(todo_actions)@ == old(todo_actions)@ + checkmark_actions(
            store@,
            view as int,
            pressed,
        ),
{
    if pressed {
        match store.target(view, Role::TodoCheckmarkView) {
            Some(m) => {
                match store.todo(m) {
                    Some(t) => {
                        todo_actions.push(ModelTodoAction::UpdateChecked(m, !t.checked));
                    },
                    None => {},
                }
            },
            None => {},
        }
    }
}

/// Asks every model that is being edited to stop.
pub fn release_edits(
    store: &Store,
    todo_actions: &mut Vec<ModelTodoAction>,
    input_actions: &mut Vec<ModelInputAction>,
)
    ensures
        final(todo_actions)@ == old(todo_actions)@ + todo_releases(store@, store@.len()),
        final(input_actions)@ == old(input_actions)@ + input_releases(store@, store@.len()),
{
    let n = store.len();
    let mut i: usize = 0;
    while i < n
        invariant
            0 <= i <= n,
            n == store@.len(),
            todo_actions@ == old(todo_actions)@ + todo_releases(store@, i as nat),
            input_actions@ == old(input_actions)@ + input_releases(store@, i as nat),
        decreases n - i,
    {
        let todo_editing = match store.todo(i) {
            Some(t) => t.editing,
            None => false,
        };
        if todo_editing {
            todo_actions.push(ModelTodoAction::Edit(i, false));
        }
        let input_editing = match store.input(i) {
            Some(t) => t.editing,
            None => false,
        };
        if input_editing {
            input_actions.push(ModelInputAction::Edit(i, false));
        }
        i = i + 1;
    }
}

/// A press on the text view of a todo item: every model that is being edited
/// is asked to stop, then the item is asked to start.
pub fn handle_text_interaction(
    store: &Store,
    view: Handle,
    pressed: bool,
    todo_actions: &mut Vec<ModelTodoAction>,
    input_actions: &mut Vec<ModelInputAction>,
)
    ensures
        final(todo_actions)@ == old(todo_actions)@ + text_todo_actions(
            store@,
            view as int,
            pressed,
        ),
        final(input_actions)@ == old(input_actions)@ + text_input_actions(
            store@,
            view as int,
            pressed,
        ),
{
    if pressed {
        match store.target(view, Role::TodoTextView) {
            Some(m) => {
                release_edits(store, todo_actions, input_actions);
                todo_actions.push(ModelTodoAction::Edit(m, true));
            },
            None => {},
        }
    }
}

/// A press on an input view: every model that is being edited is asked to
/// stop, then the composition buffer is asked to start.
pub fn handle_input_interaction(
    store: &Store,
    view: Handle,
    pressed: bool,
    todo_actions: &mut Vec<ModelTodoAction>,
    input_actions: &mut Vec<ModelInputAction>,
)
    ensures
        final(todo_actions)@ == old(todo_actions)@ + input_todo_actions(
            store@,
            view as int,
            pressed,
        ),
        final(input_actions)@ == old(input_actions)@ + input_input_actions(
            store@,
            view as int,
            pressed,
        ),
{
    if pressed {
        match store.target(view, Role::TodoInput) {
            Some(m) => {
                release_edits(store, todo_actions, input_actions);
                input_actions.push(ModelInputAction::Edit(m, true));
            },
            None => {},
        }
    }
}

/// The submit key: where the focus is on an input view, a todo item is asked
/// for with the text of the composition buffer, and the buffer is cleared.
pub fn handle_enter(
    store: &Store,
    focus: &Focus,
    todo_actions: &mut Vec<ModelTodoAction>,
    input_actions: &mut Vec<ModelInputAction>,
)
    ensures
        submits(store@, focus.0) ==> final(todo_actions)@ == old(todo_actions)@.push(
            ModelTodoAction::Create(
                the_input(store@, model_of(store@, focus.0->0 as int) as int).text,
            ),
        ) && final(input_actions)@.len() == old(input_actions)@.len() + 1 && final(input_actions)@.subrange(0, old(input_actions)@.len() as int) == old(input_actions)@ && clears(
            final(input_actions)@.last(),
            model_of(store@, focus.0->0 as int),
        ),
        !submits(store@, focus.0) ==> final(todo_actions)@ == old(todo_actions)@ && final(input_actions)@ == old(input_actions)@,
{
    match focus.0 {
        Some(f) => {
            match store.target(f, Role::TodoInput) {
                Some(m) => {
                    match store.input(m) {
                        Some(buffer) => {
                            todo_actions.push(ModelTodoAction::Create(buffer.text.clone()));
                            input_actions.push(ModelInputAction::UpdateText(m, String::new()));
                        },
                        None => {},
                    }
                },
                None => {},
            }
        },
        None => {},
    }
}

/// The text of a widget changed: the model of its view is asked to follow.
pub fn handle_cosmic_change(
    store: &Store,
    view: Handle,
    text: &String,
    todo_actions: &mut Vec<ModelTodoAction>,
    input_actions: &mut Vec<ModelInputAction>,
)
    ensures
        final(todo_actions)@ == old(todo_actions)@ + cosmic_todo_actions(
            store@,
            view as int,
            *text,
        ),
        final(input_actions)@ == old(input_actions)@ + cosmic_input_actions(
            store@,
            view as int,
            *text,
        ),
{
    match store.target(view, Role::TodoTextView) {
        Some(m) => {
            todo_actions.push(ModelTodoAction::UpdateText(m, text.clone()));
        },
        None => {},
    }
    match store.target(view, Role::TodoInput) {
        Some(m) => {
            input_actions.push(ModelInputAction::UpdateText(m, text.clone()));
        },
        None => {},
    }
}

} // verus!
