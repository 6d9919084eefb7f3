//! The building of views for models that were just created.
use vstd::prelude::*;
use crate::effect::{Effect, Widget};
use crate::focus::SetFocus;
use crate::laws::todos_shown_rows;
use crate::record::{
    Handle, InputModel, Record, Role, Slots, Style, TodoModel, ViewRecord, checked_style,
    clone_text, display_checked, input_at, no_new_editable, the_input, the_todo, the_view,
    todo_at, view_at,
};
use crate::store::Store;
use crate::tree_builder::{EntityTreeExt, Link, Tree, joined};

verus! {

/// What the building of views works on: the store, the effects handed out so
/// far, and the focus requests raised so far.
pub struct Stage {
    pub slots: Slots,
    pub effects: Seq<Effect>,
    pub requests: Seq<SetFocus>,
}

/// The views of one todo item, in the order in which they are made: the row,
/// the check button and its glyph, the text, the delete button and its glyph.
pub open spec fn todo_views(t: TodoModel, m: Handle) -> Seq<ViewRecord> {
    seq![
        ViewRecord::built(Role::TodoRootView, m, None, Style::Normal),
        ViewRecord::built(Role::TodoCheckmarkView, m, None, checked_style(t.checked)),
        ViewRecord::built(Role::TodoCheckmarkView, m, None, checked_style(t.checked)),
        ViewRecord::built(Role::TodoTextView, m, Some(t.text), checked_style(t.checked)),
        ViewRecord::built(Role::TodoDeleterView, m, None, Style::Normal),
        ViewRecord::built(Role::Plain, m, None, Style::Normal),
    ]
}

/// The parent-child pairs of the views of one todo item, the first of which
/// got handle `base`, under the list container.
pub open spec fn todo_links(list: Handle, base: int) -> Seq<Link> {
    seq![
        (list, base as Handle),
        (base as Handle, (base + 1) as Handle),
        ((base + 1) as Handle, (base + 2) as Handle),
        (base as Handle, (base + 3) as Handle),
        (base as Handle, (base + 4) as Handle),
        ((base + 4) as Handle, (base + 5) as Handle),
    ]
}

/// The widgets that draw the views of one todo item, in the same order.
pub open spec fn todo_widgets() -> Seq<Widget> {
    seq![
        Widget::Row,
        Widget::Button,
        Widget::Label,
        Widget::Editor,
        Widget::Button,
        Widget::Label,
    ]
}

/// The view of a composition buffer.
pub open spec fn input_views(t: InputModel, m: Handle) -> Seq<ViewRecord> {
    seq![ViewRecord::built(Role::TodoInput, m, Some(t.text), Style::Normal)]
}

pub open spec fn create_effect(h: Handle, v: ViewRecord, widget: Widget) -> Effect {
    Effect::CreateView {
        view: h,
        widget,
        role: v.role,
        model: v.model,
        content: v.text,
        style: v.style,
    }
}

/// One `CreateView` for each of `views`, which get the handles from `base`
/// on and are drawn by the widgets of `widgets`, one for one.
pub open spec fn create_effects(base: int, views: Seq<ViewRecord>, widgets: Seq<Widget>) -> Seq<
    Effect,
> {
    Seq::new(views.len(), |j: int| create_effect((base + j) as Handle, views[j], widgets[j]))
}

/// One `Link` for each pair, in order.
pub open spec fn link_effects(links: Seq<Link>) -> Seq<Effect> {
    Seq::new(links.len(), |j: int| Effect::Link { parent: links[j].0, child: links[j].1 })
}

pub open spec fn as_slots(views: Seq<ViewRecord>) -> Slots {
    Seq::new(views.len(), |j: int| Some(Record::View(views[j])))
}

pub open spec fn fresh_todo(s: Slots, k: int) -> bool {
    todo_at(s, k) && the_todo(s, k).fresh
}

pub open spec fn fresh_input(s: Slots, k: int) -> bool {
    input_at(s, k) && the_input(s, k).fresh
}

/// What showing the record under `k` does where it is a fresh todo item: the
/// item is no longer fresh, its views follow at the end of the store, and the
/// effects say how to make and link them. Any other record is left alone.
pub open spec fn todo_shown(w: Stage, list: Handle, k: int) -> Stage {
    if fresh_todo(w.slots, k) {
        let t = the_todo(w.slots, k);
        let base = w.slots.len() as int;
        let views = todo_views(t, k as Handle);
        Stage {
            slots: w.slots.update(k, Some(Record::Todo(TodoModel { fresh: false, ..t })))
                + as_slots(views),
            effects: w.effects + create_effects(base, views, todo_widgets()) + link_effects(
                todo_links(list, base),
            ),
            requests: w.requests,
        }
    } else {
        w
    }
}

/// What showing the record under `k` does where it is a fresh composition
/// buffer: as for a todo item, and the focus is asked for the new view.
pub open spec fn input_shown(w: Stage, container: Handle, k: int) -> Stage {
    if fresh_input(w.slots, k) {
        let t = the_input(w.slots, k);
        let base = w.slots.len() as int;
        let views = input_views(t, k as Handle);
        Stage {
            slots: w.slots.update(k, Some(Record::Input(InputModel { fresh: false, ..t })))
                + as_slots(views),
            effects: w.effects + create_effects(base, views, seq![Widget::Editor]) + link_effects(
                seq![(container, base as Handle)],
            ),
            requests: w.requests.push(SetFocus(Some(base as Handle))),
        }
    } else {
        w
    }
}

/// The records under the first `n` handles, shown in handle order.
pub open spec fn todos_shown(w: Stage, list: Handle, n: nat) -> Stage
    decreases n,
{
    if n == 0 {
        w
    } else {
        todo_shown(todos_shown(w, list, (n - 1) as nat), list, n - 1)
    }
}

/// The records under the first `n` handles, shown in handle order.
pub open spec fn inputs_shown(w: Stage, container: Handle, n: nat) -> Stage
    decreases n,
{
    if n == 0 {
        w
    } else {
        input_shown(inputs_shown(w, container, (n - 1) as nat), container, n - 1)
    }
}

/// The number of fresh todo items among the first `n` records.
pub open spec fn fresh_todos(s: Slots, n: nat) -> nat
    decreases n,
{
    if n == 0 {
        0
    } else {
        fresh_todos(s, (n - 1) as nat) + if fresh_todo(s, n - 1) {
            1nat
        } else {
            0nat
        }
    }
}

/// The handle that the row of the fresh todo item under `h` gets when the
/// records of `s` are shown: the views follow the store, six for each
/// fresh item, in the order of the items' handles.
pub open spec fn row_of(s: Slots, h: int) -> int {
    s.len() as int + 6 * fresh_todos(s, h as nat)
}

/// The number of row views among the slots from `lo` up to `hi`.
pub open spec fn root_rows(s: Slots, lo: int, hi: int) -> nat
    decreases hi - lo,
{
    if hi <= lo {
        0
    } else {
        root_rows(s, lo, hi - 1) + if view_at(s, hi - 1) && the_view(s, hi - 1).role
            == Role::TodoRootView {
            1nat
        } else {
            0nat
        }
    }
}

/// The fresh todo item under `h` of the store `w.slots` got its subtree in
/// `r`: its six views stand from its row on, each mirrors `h`, and the
/// effects make them and link them, the row under the list container.
pub open spec fn block_at(r: Stage, w: Stage, list: Handle, h: int) -> bool {
    let s = w.slots;
    let row = row_of(s, h);
    let at = w.effects.len() as int + 12 * fresh_todos(s, h as nat);
    let views = todo_views(the_todo(s, h), h as Handle);
    &&& row + 6 <= r.slots.len()
    &&& r.slots.subrange(row, row + 6) == as_slots(views)
    &&& at + 12 <= r.effects.len()
    &&& r.effects.subrange(at, at + 12) == create_effects(row, views, todo_widgets())
        + link_effects(todo_links(list, row))
}

/// The view under `i` belongs to the subtree of a todo item that was fresh
/// in `s` among the first `n` records, and mirrors that item.
pub open spec fn spawned_for(r: Slots, s: Slots, n: nat, i: int) -> bool {
    &&& view_at(r, i)
    &&& the_view(r, i).model < n
    &&& fresh_todo(s, the_view(r, i).model as int)
    &&& row_of(s, the_view(r, i).model as int) <= i < row_of(s, the_view(r, i).model as int) + 6
}

/// The stage `r` keeps the requests of `w`, and holds six more views and
/// twelve more effects for each fresh todo item among the first `n` records
/// of `w`, behind what `w` held.
pub open spec fn grown(w: Stage, r: Stage, n: nat) -> bool {
    &&& r.requests == w.requests
    &&& r.slots.len() == w.slots.len() + 6 * fresh_todos(w.slots, n)
    &&& r.effects.len() == w.effects.len() + 12 * fresh_todos(w.slots, n)
    &&& r.effects.subrange(0, w.effects.len() as int) == w.effects
}

/// Every record that `w` held is in `r` as it was, but that the todo items
/// among the first `n` are no longer fresh.
pub open spec fn kept(w: Stage, r: Stage, n: nat) -> bool {
    forall|k: int|
        0 <= k < w.slots.len() ==> #[trigger] r.slots[k] == (if k < n && fresh_todo(w.slots, k) {
            Some(Record::Todo(TodoModel { fresh: false, ..the_todo(w.slots, k) }))
        } else {
            w.slots[k]
        })
}

/// Each todo item that was fresh among the first `n` records has its subtree.
pub open spec fn blocks(w: Stage, r: Stage, list: Handle, n: nat) -> bool {
    forall|h: int| 0 <= h < n && fresh_todo(w.slots, h) ==> #[trigger] block_at(r, w, list, h)
}

/// Each view that was added belongs to the subtree of the item it mirrors.
pub open spec fn owned(w: Stage, r: Stage, n: nat) -> bool {
    forall|i: int|
        w.slots.len() <= i < r.slots.len() ==> #[trigger] spawned_for(r.slots, w.slots, n, i)
}

/// There are as many new rows as there were fresh todo items.
pub open spec fn counted(w: Stage, r: Stage, n: nat) -> bool {
    root_rows(r.slots, w.slots.len() as int, r.slots.len() as int) == fresh_todos(w.slots, n)
}

/// What the showing of the first `n` records of `w` leaves in `r`: exactly
/// one subtree for each todo item among them that was fresh, and nothing
/// else.
pub open spec fn shown_well(w: Stage, r: Stage, list: Handle, n: nat) -> bool {
    &&& grown(w, r, n)
    &&& kept(w, r, n)
    &&& blocks(w, r, list, n)
    &&& owned(w, r, n)
    &&& counted(w, r, n)
}

/// Stores a new view and tells the outside to make it.
fn add_view(
    store: &mut Store,
    outbox: &mut Vec<Effect>,
    view: ViewRecord,
    widget: Widget,
) -> (h: Handle)
    ensures
        h == old(store)@.len(),
        final(store)@ == old(store)@.push(Some(Record::View(view))),
        final(outbox)@ == old(outbox)@.push(create_effect(h, view, widget)),
{
    let effect = Effect::CreateView {
        view: store.len(),
        widget,
        role: view.role,
        model: view.model,
        content: clone_text(&view.text),
        style: view.style,
    };
    outbox.push(effect);
    store.insert(Record::View(view))
}

/// Tells the outside to commit the pairs of a finished tree.
pub fn commit_links(tree: Tree, outbox: &mut Vec<Effect>)
    ensures
        final(outbox)@ == old(outbox)@ + link_effects(tree.links@),
{
    let ghost start = outbox@;
    let links = tree.build();
    let mut j: usize = 0;
    while j < links.len()
        invariant
            0 <= j <= links.len(),
            outbox@ == start + link_effects(links@.subrange(0, j as int)),
        decreases links.len() - j,
    {
        let (parent, child) = links[j];
        outbox.push(Effect::Link { parent, child });
        j = j + 1;
    }
}

/// Builds the views of the todo item under `h` if it is fresh.
pub fn display_todo(store: &mut Store, todo_list: Handle, outbox: &mut Vec<Effect>, h: Handle)
    ensures
        (Stage { slots: final(store)@, effects: final(outbox)@, requests: Seq::empty() })
            == todo_shown(
            (Stage { slots: old(store)@, effects: old(outbox)@, requests: Seq::empty() }),
            todo_list,
            h as int,
        ),
        no_new_editable(old(store)@, final(store)@),
{
    let item = match store.todo(h) {
        Some(t) => if t.fresh {
            Some(t.duplicate())
        } else {
            None
        },
        None => None,
    };
    match item {
        Some(t) => {
            let ghost s0 = store@;
            let ghost out0 = outbox@;
            let ghost views = todo_views(t, h);
            let style = display_checked(t.checked);
            store.put(
                h,
                Record::Todo(
                    TodoModel {
                        text: t.text.clone(),
                        checked: t.checked,
                        editing: t.editing,
                        fresh: false,
                        text_changed: t.text_changed,
                        checked_changed: t.checked_changed,
                        editing_changed: t.editing_changed,
                    },
                ),
            );
            let root = add_view(
                store,
                outbox,
                ViewRecord::new(Role::TodoRootView, h, None, Style::Normal),
                Widget::Row,
            );
            let check_btn = add_view(
                store,
                outbox,
                ViewRecord::new(Role::TodoCheckmarkView, h, None, style),
                Widget::Button,
            );
            let check_txt = add_view(
                store,
                outbox,
                ViewRecord::new(Role::TodoCheckmarkView, h, None, style),
                Widget::Label,
            );
            let text_btn = add_view(
                store,
                outbox,
                ViewRecord::new(Role::TodoTextView, h, Some(t.text.clone()), style),
                Widget::Editor,
            );
            let delete_btn = add_view(
                store,
                outbox,
                ViewRecord::new(Role::TodoDeleterView, h, None, Style::Normal),
                Widget::Button,
            );
            let delete_txt = add_view(
                store,
                outbox,
                ViewRecord::new(Role::Plain, h, None, Style::Normal),
                Widget::Label,
            );
            proof {
                assert(store@ =~= s0.update(
                    h as int,
                    Some(Record::Todo(TodoModel { fresh: false, ..t })),
                ) + as_slots(views));
                assert(outbox@ =~= out0 + create_effects(s0.len() as int, views, todo_widgets()));
            }
            let check = check_btn.tree(check_txt);
            let delete = delete_btn.tree(delete_txt);
            let row = root.tree((check, text_btn, delete));
            let tree = todo_list.tree(row);
            proof {
                reveal_with_fuel(joined, 4);
                assert(tree.links@ =~= todo_links(todo_list, s0.len() as int));
            }
            commit_links(tree, outbox);
        },
        None => {},
    }
}

/// Builds the view of the composition buffer under `h` if it is fresh, and
/// asks for the focus on it.
pub fn display_input(
    store: &mut Store,
    container: Handle,
    outbox: &mut Vec<Effect>,
    requests: &mut Vec<SetFocus>,
    h: Handle,
)
    ensures
        (Stage { slots: final(store)@, effects: final(outbox)@, requests: final(requests)@ })
            == input_shown(
            (Stage { slots: old(store)@, effects: old(outbox)@, requests: old(requests)@ }),
            container,
            h as int,
        ),
        no_new_editable(old(store)@, final(store)@),
{
    let item = match store.input(h) {
        Some(t) => if t.fresh {
            Some(t.duplicate())
        } else {
            None
        },
        None => None,
    };
    match item {
        Some(t) => {
            let ghost s0 = store@;
            let ghost out0 = outbox@;
            let ghost views = input_views(t, h);
            store.put(
                h,
                Record::Input(
                    InputModel {
                        text: t.text.clone(),
                        editing: t.editing,
                        fresh: false,
                        text_changed: t.text_changed,
                        editing_changed: t.editing_changed,
                    },
                ),
            );
            let view = add_view(
                store,
                outbox,
                ViewRecord::new(Role::TodoInput, h, Some(t.text.clone()), Style::Normal),
                Widget::Editor,
            );
            proof {
                assert(store@ =~= s0.update(
                    h as int,
                    Some(Record::Input(InputModel { fresh: false, ..t })),
                ) + as_slots(views));
                assert(outbox@ =~= out0 + create_effects(
                    s0.len() as int,
                    views,
                    seq![Widget::Editor],
                ));
            }
            let tree = container.tree(view);
            proof {
                reveal_with_fuel(joined, 2);
            }
            commit_links(tree, outbox);
            requests.push(SetFocus(Some(view)));
        },
        None => {},
    }
}

/// Builds the views of every fresh todo item, each exactly once: an item is
/// no longer fresh once its views are built. So exactly one subtree is built
/// for each item that was fresh, its row linked under the list container,
/// every view of it mirroring the item; and nothing else is added.
pub fn display_todos(store: &mut Store, todo_list: Handle, outbox: &mut Vec<Effect>)
    ensures
        (Stage { slots: final(store)@, effects: final(outbox)@, requests: Seq::empty() })
            == todos_shown(
            (Stage { slots: old(store)@, effects: old(outbox)@, requests: Seq::empty() }),
            todo_list,
            old(store)@.len(),
        ),
        shown_well(
            (Stage { slots: old(store)@, effects: old(outbox)@, requests: Seq::empty() }),
            (Stage { slots: final(store)@, effects: final(outbox)@, requests: Seq::empty() }),
            todo_list,
            old(store)@.len(),
        ),
        no_new_editable(old(store)@, final(store)@),
{
    let n = store.len();
    let mut i: usize = 0;
    while i < n
        invariant
            0 <= i <= n,
            n == old(store)@.len(),
            (Stage { slots: store@, effects: outbox@, requests: Seq::empty() }) == todos_shown(
                (Stage { slots: old(store)@, effects: old(outbox)@, requests: Seq::empty() }),
                todo_list,
                i as nat,
            ),
            no_new_editable(old(store)@, store@),
        decreases n - i,
    {
        display_todo(store, todo_list, outbox, i);
        i = i + 1;
    }
    proof {
        todos_shown_rows(
            Stage { slots: old(store)@, effects: old(outbox)@, requests: Seq::empty() },
            todo_list,
            n as nat,
        );
    }
}

/// Builds the view of every fresh composition buffer, each exactly once, and
/// asks for the focus on each new view.
pub fn display_text_input(
    store: &mut Store,
    container: Handle,
    outbox: &mut Vec<Effect>,
    requests: &mut Vec<SetFocus>,
)
    ensures
        (Stage { slots: final(store)@, effects: final(outbox)@, requests: final(requests)@ })
            == inputs_shown(
            (Stage { slots: old(store)@, effects: old(outbox)@, requests: old(requests)@ }),
            container,
            old(store)@.len(),
        ),
        no_new_editable(old(store)@, final(store)@),
{
    let n = store.len();
    let mut i: usize = 0;
    while i < n
        invariant
            0 <= i <= n,
            n == old(store)@.len(),
            (Stage { slots: store@, effects: outbox@, requests: requests@ }) == inputs_shown(
                (Stage { slots: old(store)@, effects: old(outbox)@, requests: old(requests)@ }),
                container,
                i as nat,
            ),
            no_new_editable(old(store)@, store@),
        decreases n - i,
    {
        display_input(store, container, outbox, requests, i);
        i = i + 1;
    }
}

} // verus!
