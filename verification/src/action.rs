//! The actions on the models, and the phase that serves them.
use vstd::prelude::*;
use crate::record::{
    Handle, InputModel, Record, Slots, TodoModel, input_at, no_new_editable, only_models, the_input,
    the_todo, todo_at,
};
use crate::store::Store;

verus! {

/// A requested change to the todo items.
#[derive(Debug, PartialEq, Eq)]
pub enum ModelTodoAction {
    Create(String),
    Delete(Handle),
    UpdateText(Handle, String),
    UpdateChecked(Handle, bool),
    Edit(Handle, bool),
}

/// A requested change to the composition buffer.
#[derive(Debug, PartialEq, Eq)]
pub enum ModelInputAction {
    Create(String),
    UpdateText(Handle, String),
    Edit(Handle, bool),
}

/// Structural edits that wait for the flush, and the handles of the actions
/// that were dropped because they named no record of the right kind.
#[derive(Debug)]
pub struct Commands {
    pub spawned: Vec<Record>,
    pub despawned: Vec<Handle>,
    pub stale: Vec<Handle>,
}

/// The state that a run of actions works on.
pub struct Batch {
    pub slots: Slots,
    pub spawned: Seq<Record>,
    pub despawned: Seq<Handle>,
    pub stale: Seq<Handle>,
}

pub open spec fn batch_of(store: Store, commands: Commands) -> Batch {
    Batch {
        slots: store@,
        spawned: commands.spawned@,
        despawned: commands.despawned@,
        stale: commands.stale@,
    }
}

/// The action is dropped and its handle noted.
pub open spec fn dropped(b: Batch, h: Handle) -> Batch {
    Batch { stale: b.stale.push(h), ..b }
}

/// What one todo action does. A field is written in place and its pulse set;
/// a creation or a deletion is only noted, so that the rest of the run still
/// sees the store as it was; an action on a handle that names no todo item is
/// dropped.
pub open spec fn todo_step(b: Batch, a: ModelTodoAction) -> Batch {
    match a {
        ModelTodoAction::Create(text) => Batch {
            spawned: b.spawned.push(Record::Todo(TodoModel::created(text))),
            ..b
        },
        ModelTodoAction::Delete(h) => if todo_at(b.slots, h as int) {
            Batch { despawned: b.despawned.push(h), ..b }
        } else {
            dropped(b, h)
        },
        ModelTodoAction::UpdateText(h, text) => if todo_at(b.slots, h as int) {
            Batch {
                slots: b.slots.update(
                    h as int,
                    Some(
                        Record::Todo(
                            TodoModel { text, text_changed: true, ..the_todo(b.slots, h as int) },
                        ),
                    ),
                ),
                ..b
            }
        } else {
            dropped(b, h)
        },
        ModelTodoAction::UpdateChecked(h, checked) => if todo_at(b.slots, h as int) {
            Batch {
                slots: b.slots.update(
                    h as int,
                    Some(
                        Record::Todo(
                            TodoModel {
                                checked,
                                checked_changed: true,
                                ..the_todo(b.slots, h as int)
                            },
                        ),
                    ),
                ),
                ..b
            }
        } else {
            dropped(b, h)
        },
        ModelTodoAction::Edit(h, editing) => if todo_at(b.slots, h as int) {
            Batch {
                slots: b.slots.update(
                    h as int,
                    Some(
                        Record::Todo(
                            TodoModel {
                                editing,
                                editing_changed: true,
                                ..the_todo(b.slots, h as int)
                            },
                        ),
                    ),
                ),
                ..b
            }
        } else {
            dropped(b, h)
        },
    }
}

/// What one action on the composition buffer does; see [`todo_step`].
pub open spec fn input_step(b: Batch, a: ModelInputAction) -> Batch {
    match a {
        ModelInputAction::Create(text) => Batch {
            spawned: b.spawned.push(Record::Input(InputModel::created(text))),
            ..b
        },
        ModelInputAction::UpdateText(h, text) => if input_at(b.slots, h as int) {
            Batch {
                slots: b.slots.update(
                    h as int,
                    Some(
                        Record::Input(
                            InputModel { text, text_changed: true, ..the_input(b.slots, h as int) },
                        ),
                    ),
                ),
                ..b
            }
        } else {
            dropped(b, h)
        },
        ModelInputAction::Edit(h, editing) => if input_at(b.slots, h as int) {
            Batch {
                slots: b.slots.update(
                    h as int,
                    Some(
                        Record::Input(
                            InputModel {
                                editing,
                                editing_changed: true,
                                ..the_input(b.slots, h as int)
                            },
                        ),
                    ),
                ),
                ..b
            }
        } else {
            dropped(b, h)
        },
    }
}

/// The first `n` todo actions, applied in arrival order.
pub open spec fn todo_run(b: Batch, actions: Seq<ModelTodoAction>, n: nat) -> Batch
    decreases n,
{
    if n == 0 {
        b
    } else {
        todo_step(todo_run(b, actions, (n - 1) as nat), actions[n - 1])
    }
}

/// The first `n` input actions, applied in arrival order.
pub open spec fn input_run(b: Batch, actions: Seq<ModelInputAction>, n: nat) -> Batch
    decreases n,
{
    if n == 0 {
        b
    } else {
        input_step(input_run(b, actions, (n - 1) as nat), actions[n - 1])
    }
}

/// Handle `h` is among those marked for deletion.
pub open spec fn marked(despawned: Seq<Handle>, h: int) -> bool {
    exists|j: int| 0 <= j < despawned.len() && #[trigger] despawned[j] == h
}

/// The store after the flush: every record marked for deletion is gone, and
/// the new records follow, each under the next unused handle.
pub open spec fn flushed(b: Batch) -> Slots {
    Seq::new(
        b.slots.len(),
        |i: int|
            if marked(b.despawned, i) {
                None
            } else {
                b.slots[i]
            },
    ) + Seq::new(b.spawned.len(), |k: int| Some(b.spawned[k]))
}

impl Commands {
    pub fn new() -> (c: Commands)
        ensures
            c.spawned@.len() == 0,
            c.despawned@.len() == 0,
            c.stale@.len() == 0,
    {
        Commands { spawned: Vec::new(), despawned: Vec::new(), stale: Vec::new() }
    }
}

impl Store {
    /// The todo item under `h`, if `h` names one.
    pub fn todo(&self, h: Handle) -> (r: Option<&TodoModel>)
        ensures
            r.is_some() == todo_at(self@, h as int),
            r.is_some() ==> *r.unwrap() == the_todo(self@, h as int),
    {
        if h < self.slots.len() {
            match &self.slots[h] {
                Some(Record::Todo(t)) => Some(t),
                _ => None,
            }
        } else {
            None
        }
    }

    /// The composition buffer under `h`, if `h` names one.
    pub fn input(&self, h: Handle) -> (r: Option<&InputModel>)
        ensures
            r.is_some() == input_at(self@, h as int),
            r.is_some() ==> *r.unwrap() == the_input(self@, h as int),
    {
        if h < self.slots.len() {
            match &self.slots[h] {
                Some(Record::Input(m)) => Some(m),
                _ => None,
            }
        } else {
            None
        }
    }
}

/// Applies one todo action.
pub fn apply_todo_action(store: &mut Store, commands: &mut Commands, action: &ModelTodoAction)
    ensures
        batch_of(*final(store), *final(commands)) == todo_step(
            batch_of(*old(store), *old(commands)),
            *action,
        ),
        no_new_editable(old(store)@, final(store)@),
        only_models(old(commands).spawned@) ==> only_models(final(commands).spawned@),
{
    match action {
        ModelTodoAction::Create(text) => {
            commands.spawned.push(Record::Todo(TodoModel::new(text.clone())));
        },
        ModelTodoAction::Delete(h) => {
            if store.todo(*h).is_some() {
                commands.despawned.push(*h);
            } else {
                commands.stale.push(*h);
            }
        },
        ModelTodoAction::UpdateText(h, text) => {
            match store.todo(*h) {
                Some(t) => {
                    let m = TodoModel {
                        text: text.clone(),
                        checked: t.checked,
                        editing: t.editing,
                        fresh: t.fresh,
                        text_changed: true,
                        checked_changed: t.checked_changed,
                        editing_changed: t.editing_changed,
                    };
                    store.put(*h, Record::Todo(m));
                },
                None => {
                    commands.stale.push(*h);
                },
            }
        },
        ModelTodoAction::UpdateChecked(h, checked) => {
            match store.todo(*h) {
                Some(t) => {
                    let m = TodoModel {
                        text: t.text.clone(),
                        checked: *checked,
                        editing: t.editing,
                        fresh: t.fresh,
                        text_changed: t.text_changed,
                        checked_changed: true,
                        editing_changed: t.editing_changed,
                    };
                    store.put(*h, Record::Todo(m));
                },
                None => {
                    commands.stale.push(*h);
                },
            }
        },
        ModelTodoAction::Edit(h, editing) => {
            match store.todo(*h) {
                Some(t) => {
                    let m = TodoModel {
                        text: t.text.clone(),
                        checked: t.checked,
                        editing: *editing,
                        fresh: t.fresh,
                        text_changed: t.text_changed,
                        checked_changed: t.checked_changed,
                        editing_changed: true,
                    };
                    store.put(*h, Record::Todo(m));
                },
                None => {
                    commands.stale.push(*h);
                },
            }
        },
    }
}

/// Applies one action on the composition buffer.
pub fn apply_input_action(store: &mut Store, commands: &mut Commands, action: &ModelInputAction)
    ensures
        batch_of(*final(store), *final(commands)) == input_step(
            batch_of(*old(store), *old(commands)),
            *action,
        ),
        no_new_editable(old(store)@, final(store)@),
        only_models(old(commands).spawned@) ==> only_models(final(commands).spawned@),
{
    match action {
        ModelInputAction::Create(text) => {
            commands.spawned.push(Record::Input(InputModel::new(text.clone())));
        },
        ModelInputAction::UpdateText(h, text) => {
            match store.input(*h) {
                Some(t) => {
                    let m = InputModel {
                        text: text.clone(),
                        editing: t.editing,
                        fresh: t.fresh,
                        text_changed: true,
                        editing_changed: t.editing_changed,
                    };
                    store.put(*h, Record::Input(m));
                },
                None => {
                    commands.stale.push(*h);
                },
            }
        },
        ModelInputAction::Edit(h, editing) => {
            match store.input(*h) {
                Some(t) => {
                    let m = InputModel {
                        text: t.text.clone(),
                        editing: *editing,
                        fresh: t.fresh,
                        text_changed: t.text_changed,
                        editing_changed: true,
                    };
                    store.put(*h, Record::Input(m));
                },
                None => {
                    commands.stale.push(*h);
                },
            }
        },
    }
}

/// Applies the queued todo actions in arrival order. No action stops the run:
/// one that names no todo item is dropped and its handle noted.
pub fn update_todo_model(
    store: &mut Store,
    commands: &mut Commands,
    actions: &Vec<ModelTodoAction>,
)
    ensures
        batch_of(*final(store), *final(commands)) == todo_run(
            batch_of(*old(store), *old(commands)),
            actions@,
            actions@.len(),
        ),
        no_new_editable(old(store)@, final(store)@),
        only_models(old(commands).spawned@) ==> only_models(final(commands).spawned@),
{
    let mut i: usize = 0;
    while i < actions.len()
        invariant
            0 <= i <= actions.len(),
            batch_of(*store, *commands) == todo_run(
                batch_of(*old(store), *old(commands)),
                actions@,
                i as nat,
            ),
            no_new_editable(old(store)@, store@),
            only_models(old(commands).spawned@) ==> only_models(commands.spawned@),
        decreases actions.len() - i,
    {
        apply_todo_action(store, commands, &actions[i]);
        i = i + 1;
    }
}

/// Applies the queued input actions in arrival order; see [`update_todo_model`].
pub fn update_input_model(
    store: &mut Store,
    commands: &mut Commands,
    actions: &Vec<ModelInputAction>,
)
    ensures
        batch_of(*final(store), *final(commands)) == input_run(
            batch_of(*old(store), *old(commands)),
            actions@,
            actions@.len(),
        ),
        no_new_editable(old(store)@, final(store)@),
        only_models(old(commands).spawned@) ==> only_models(final(commands).spawned@),
{
    let mut i: usize = 0;
    while i < actions.len()
        invariant
            0 <= i <= actions.len(),
            batch_of(*store, *commands) == input_run(
                batch_of(*old(store), *old(commands)),
                actions@,
                i as nat,
            ),
            no_new_editable(old(store)@, store@),
            only_models(old(commands).spawned@) ==> only_models(commands.spawned@),
        decreases actions.len() - i,
    {
        apply_input_action(store, commands, &actions[i]);
        i = i + 1;
    }
}

/// The flush boundary: commits the deletions, then the creations, and leaves
/// nothing pending. Returns the handles of the dropped actions.
pub fn flush(store: &mut Store, commands: Commands) -> (stale: Vec<Handle>)
    ensures
        final(store)@ == flushed(batch_of(*old(store), commands)),
        stale@ == commands.stale@,
        only_models(commands.spawned@) ==> no_new_editable(old(store)@, final(store)@),
{
    let ghost before = store@;
    let mut i: usize = 0;
    while i < commands.despawned.len()
        invariant
            0 <= i <= commands.despawned.len(),
            store@.len() == before.len(),
            forall|k: int|
                0 <= k < before.len() ==> #[trigger] store@[k] == (if marked(
                    commands.despawned@.subrange(0, i as int),
                    k,
                ) {
                    None
                } else {
                    before[k]
                }),
        decreases commands.despawned.len() - i,
    {
        let h = commands.despawned[i];
        let ghost seen = commands.despawned@.subrange(0, i as int);
        let ghost next = commands.despawned@.subrange(0, i + 1);
        proof {
            assert forall|k: int| marked(next, k) == (marked(seen, k) || k == h) by {
                if marked(next, k) {
                    let j = choose|j: int| 0 <= j < next.len() && #[trigger] next[j] == k;
                    assert(j < seen.len() ==> seen[j] == k);
                }
                if marked(seen, k) {
                    let j = choose|j: int| 0 <= j < seen.len() && #[trigger] seen[j] == k;
                    assert(next[j] == k);
                }
                if k == h {
                    assert(next[i as int] == k);
                }
            };
        }
        store.destroy(h);
        i = i + 1;
    }
    proof {
        assert(commands.despawned@.subrange(0, i as int) == commands.despawned@);
    }
    let ghost purged = store@;
    let mut j: usize = 0;
    while j < commands.spawned.len()
        invariant
            0 <= j <= commands.spawned.len(),
            store@ == purged + Seq::new(j as nat, |k: int| Some(commands.spawned@[k])),
        decreases commands.spawned.len() - j,
    {
        let r = commands.spawned[j].duplicate();
        store.insert(r);
        j = j + 1;
    }
    commands.stale
}

} // verus!
