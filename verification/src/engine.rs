//! The engine: the whole state of the core, and the tick.
use vstd::prelude::*;
use crate::action::{
    Batch, Commands, ModelInputAction, ModelTodoAction, flush, flushed, input_run, todo_run,
    update_input_model, update_todo_model,
};
use crate::cascade::{
    any_orphan, cascaded, cull_leaves_no_orphan, culled, orphan, remove_displayed_todos,
};
use crate::effect::{Effect, Fault};
use crate::focus::{
    Focus, FocusState, SetFocus, focus_run, focus_run_keeps_single_editable, handle_focus,
    single_editable,
};
use crate::intake::{
    Notification, checkmark_actions, clears, cosmic_input_actions, cosmic_todo_actions,
    deleter_actions, handle_checkmark_interaction, handle_cosmic_change,
    handle_deleter_interaction, handle_enter, handle_input_interaction, handle_text_interaction,
    input_input_actions, input_todo_actions, model_of, submits, text_input_actions,
    text_todo_actions,
};
use crate::materialize::{Stage, display_text_input, display_todos, inputs_shown, todos_shown};
use crate::propagate::{
    Rule, calmed, clear_pulses, input_focus_requests, sweep_effects, swept, todo_focus_requests,
    update_displayed_input_text, update_displayed_todos_checkmark_checked,
    update_displayed_todos_text, update_displayed_todos_text_checked, update_focus_main_input,
    update_focus_todo,
};
use crate::record::{
    Handle, Slots, input_at, no_new_editable, the_input, the_todo, the_view, todo_at, view_at,
};
use crate::store::Store;

verus! {

/// The whole reactive core: the records, the focus, the two containers that
/// the outside registers, and the actions that wait for the next tick.
#[derive(Debug)]
pub struct Engine {
    pub store: Store,
    pub focus: Focus,
    /// The container under which the rows of the todo items hang.
    pub todo_list: Option<Handle>,
    /// The container under which the input view hangs.
    pub todo_input_container: Option<Handle>,
    pub todo_actions: Vec<ModelTodoAction>,
    pub input_actions: Vec<ModelInputAction>,
    /// The focus requests that came from outside and wait for the next tick.
    pub set_focus: Vec<SetFocus>,
}

/// What one tick hands back.
#[derive(Debug, PartialEq, Eq)]
pub struct Report {
    /// What the outside has to do, in order.
    pub effects: Vec<Effect>,
    /// One `StaleHandle` for each action that was dropped, in arrival order
    /// within its queue, the todo actions first.
    pub diagnostics: Vec<Fault>,
}

/// One `StaleHandle` for each handle.
pub open spec fn stale_faults(stale: Seq<Handle>) -> Seq<Fault> {
    Seq::new(stale.len(), |i: int| Fault::StaleHandle(stale[i]))
}

/// Words the handles of dropped actions as diagnostics.
pub fn diagnose(stale: &Vec<Handle>) -> (faults: Vec<Fault>)
    ensures
        faults@ == stale_faults(stale@),
{
    let mut faults: Vec<Fault> = Vec::new();
    let mut i: usize = 0;
    while i < stale.len()
        invariant
            0 <= i <= stale.len(),
            faults@ == stale_faults(stale@.subrange(0, i as int)),
        decreases stale.len() - i,
    {
        faults.push(Fault::StaleHandle(stale[i]));
        i = i + 1;
    }
    faults
}

/// No model record carries a pulse.
pub open spec fn all_quiet(s: Slots) -> bool {
    &&& forall|k: int| todo_at(s, k) ==> (#[trigger] the_todo(s, k)).quiet()
    &&& forall|k: int| input_at(s, k) ==> (#[trigger] the_input(s, k)).quiet()
}

/// The store is as a tick leaves it: no pulse is pending and no view has
/// outlived its model.
pub open spec fn settled(s: Slots) -> bool {
    all_quiet(s) && !any_orphan(s)
}

/// The mutation phase: the todo actions, then the input actions.
pub open spec fn mutated(
    s: Slots,
    todo_actions: Seq<ModelTodoAction>,
    input_actions: Seq<ModelInputAction>,
) -> Batch {
    input_run(
        todo_run(
            Batch {
                slots: s,
                spawned: Seq::empty(),
                despawned: Seq::empty(),
                stale: Seq::empty(),
            },
            todo_actions,
            todo_actions.len(),
        ),
        input_actions,
        input_actions.len(),
    )
}

/// The building of views: for the fresh todo items, then for the fresh
/// composition buffers.
pub open spec fn materialized(s: Slots, list: Handle, container: Handle) -> Stage {
    let rows = todos_shown(
        Stage { slots: s, effects: Seq::empty(), requests: Seq::empty() },
        list,
        s.len(),
    );
    inputs_shown(rows, container, rows.slots.len())
}

/// The propagation: the four display rules in turn, then the focus requests
/// that the written `editing` flags raise: first those of the models that
/// are no longer edited, then those of the models that now are, so that a
/// view that is to be opened gets the focus last and keeps it.
pub open spec fn propagated(w: Stage) -> Stage {
    let s0 = w.slots;
    let s1 = swept(Rule::TodoText, s0);
    let s2 = swept(Rule::TodoTextChecked, s1);
    let s3 = swept(Rule::TodoCheckmarkChecked, s2);
    let s4 = swept(Rule::InputText, s3);
    Stage {
        slots: s4,
        effects: w.effects + sweep_effects(Rule::TodoText, s0, s0.len()) + sweep_effects(
            Rule::TodoTextChecked,
            s1,
            s1.len(),
        ) + sweep_effects(Rule::TodoCheckmarkChecked, s2, s2.len()) + sweep_effects(
            Rule::InputText,
            s3,
            s3.len(),
        ),
        requests: w.requests + input_focus_requests(s4, false, s4.len()) + todo_focus_requests(
            s4,
            false,
            s4.len(),
        ) + input_focus_requests(s4, true, s4.len()) + todo_focus_requests(s4, true, s4.len()),
    }
}

/// The end of a tick, from the stage that propagation leaves: the focus
/// requests are served, those from outside first, then those that the models
/// raised; every pulse ends; and the views whose model is gone are removed.
pub open spec fn finished(shown: Stage, focus: Option<Handle>, set_focus: Seq<SetFocus>) -> FocusState {
    let outside = focus_run(
        FocusState { slots: shown.slots, focus, effects: shown.effects },
        set_focus,
        set_focus.len(),
    );
    let focused = focus_run(outside, shown.requests, shown.requests.len());
    cascaded(FocusState { slots: calmed(focused.slots), ..focused })
}

/// One whole tick on a store `s` with focus `focus`: mutation and flush, the
/// building of views, propagation, and the end of the tick.
pub open spec fn ticked(
    s: Slots,
    focus: Option<Handle>,
    todo_actions: Seq<ModelTodoAction>,
    input_actions: Seq<ModelInputAction>,
    set_focus: Seq<SetFocus>,
    list: Handle,
    container: Handle,
) -> FocusState {
    finished(
        propagated(
            materialized(flushed(mutated(s, todo_actions, input_actions)), list, container),
        ),
        focus,
        set_focus,
    )
}

/// A sweep changes what views show, never whether they take typing.
pub proof fn sweep_keeps_editable(rule: Rule, s: Slots)
    ensures
        no_new_editable(s, swept(rule, s)),
{
}

/// The end of every pulse leaves the views alone, and leaves no pulse.
pub proof fn calm_is_quiet(s: Slots)
    ensures
        no_new_editable(s, calmed(s)),
        all_quiet(calmed(s)),
{
}

/// Where only the focused view was editable, and no view became editable,
/// still only the focused view is.
pub proof fn keeps_single_editable(s: Slots, t: Slots, focus: Option<Handle>)
    requires
        single_editable(s, focus),
        no_new_editable(s, t),
    ensures
        single_editable(t, focus),
{
}

/// A handle that is only reserved leaves a settled store settled.
pub proof fn reserve_keeps_settled(s: Slots)
    requires
        settled(s),
    ensures
        settled(s.push(None)),
{
    let t = s.push(None);
    assert forall|k: int| todo_at(t, k) implies (#[trigger] the_todo(t, k)).quiet() by {
        assert(the_todo(s, k).quiet());
    };
    assert forall|k: int| input_at(t, k) implies (#[trigger] the_input(t, k)).quiet() by {
        assert(the_input(s, k).quiet());
    };
    assert forall|k: int| !orphan(t, k) by {
        if view_at(t, k) {
            assert(!orphan(s, k));
        }
    };
}

/// The removal of orphans leaves a quiet store quiet, and leaves no orphan.
pub proof fn cascade_settles(w: FocusState)
    requires
        all_quiet(w.slots),
    ensures
        settled(cascaded(w).slots),
{
    let c = culled(w.slots);
    cull_leaves_no_orphan(w.slots);
    assert forall|k: int| todo_at(c, k) implies (#[trigger] the_todo(c, k)).quiet() by {
        assert(the_todo(w.slots, k).quiet());
    };
    assert forall|k: int| input_at(c, k) implies (#[trigger] the_input(c, k)).quiet() by {
        assert(the_input(w.slots, k).quiet());
    };
}

impl Engine {
    /// What must hold of an engine between any two calls: only the focused
    /// view is editable.
    pub open spec fn wf(self) -> bool {
        single_editable(self.store@, self.focus.0)
    }

    /// Both containers are registered.
    pub open spec fn ready(self) -> bool {
        self.todo_list is Some && self.todo_input_container is Some
    }

    /// Tests whether only the focused view is editable.
    pub fn is_well_formed(&self) -> (b: bool)
        ensures
            b == self.wf(),
    {
        let n = self.store.len();
        let mut i: usize = 0;
        while i < n
            invariant
                0 <= i <= n,
                n == self.store@.len(),
                forall|v: int|
                    0 <= v < i && view_at(self.store@, v) && (#[trigger] the_view(
                        self.store@,
                        v,
                    )).editable ==> self.focus.0 is Some && self.focus.0->0 == v,
            decreases n - i,
        {
            let editable = match self.store.view_record(i) {
                Some(view) => view.editable,
                None => false,
            };
            let held = match self.focus.0 {
                Some(f) => f == i,
                None => false,
            };
            if editable && !held {
                return false;
            }
            i = i + 1;
        }
        true
    }

    /// An engine with no record, no focus, no container and nothing queued.
    pub fn new() -> (e: Engine)
        ensures
            e.wf(),
            e.store@ == Slots::empty(),
            e.focus.0 is None,
            e.todo_list is None,
            e.todo_input_container is None,
            e.todo_actions@.len() == 0,
            e.input_actions@.len() == 0,
            e.set_focus@.len() == 0,
    {
        Engine {
            store: Store::new(),
            focus: Focus(None),
            todo_list: None,
            todo_input_container: None,
            todo_actions: Vec::new(),
            input_actions: Vec::new(),
            set_focus: Vec::new(),
        }
    }

    /// Queues a focus request from outside, to be served in the next tick.
    pub fn request_focus(&mut self, request: SetFocus)
        requires
            old(self).wf(),
        ensures
            final(self).wf(),
            final(self).store == old(self).store,
            final(self).focus == old(self).focus,
            final(self).todo_list == old(self).todo_list,
            final(self).todo_input_container == old(self).todo_input_container,
            final(self).todo_actions == old(self).todo_actions,
            final(self).input_actions == old(self).input_actions,
            final(self).set_focus@ == old(self).set_focus@.push(request),
    {
        self.set_focus.push(request);
    }

    /// Registers the two containers under handles of their own, the list
    /// first, and asks for the composition buffer, with no text in it.
    pub fn setup_ui(&mut self) -> (anchors: (Handle, Handle))
        requires
            old(self).wf(),
        ensures
            final(self).wf(),
            anchors.0 == old(self).store@.len(),
            anchors.1 == old(self).store@.len() + 1,
            final(self).store@ == old(self).store@.push(None).push(None),
            final(self).focus == old(self).focus,
            final(self).todo_list == Some(anchors.0),
            final(self).todo_input_container == Some(anchors.1),
            final(self).todo_actions@ == old(self).todo_actions@,
            final(self).set_focus@ == old(self).set_focus@,
            final(self).input_actions@.len() == old(self).input_actions@.len() + 1,
            final(self).input_actions@.subrange(0, old(self).input_actions@.len() as int) == old(self).input_actions@,
            final(self).input_actions@.last() matches ModelInputAction::Create(text)
                && text@.len() == 0,
            settled(old(self).store@) ==> settled(final(self).store@),
    {
        proof {
            if settled(self.store@) {
                reserve_keeps_settled(self.store@);
                reserve_keeps_settled(self.store@.push(None));
            }
        }
        let list = self.store.reserve();
        let container = self.store.reserve();
        self.todo_list = Some(list);
        self.todo_input_container = Some(container);
        self.input_actions.push(ModelInputAction::Create(String::new()));
        proof {
            assert forall|v: int| view_at(self.store@, v) implies view_at(old(self).store@, v)
                && the_view(old(self).store@, v) == #[trigger] the_view(self.store@, v) by {};
        }
        (list, container)
    }

    /// Takes one notification in: the store and the focus stay as they are,
    /// and the actions that the notification stands for join the queues.
    pub fn notify(&mut self, notification: &Notification)
        requires
            old(self).wf(),
        ensures
            final(self).wf(),
            final(self).store == old(self).store,
            final(self).focus == old(self).focus,
            final(self).todo_list == old(self).todo_list,
            final(self).todo_input_container == old(self).todo_input_container,
            final(self).set_focus == old(self).set_focus,
            match *notification {
                Notification::Pointer { view, pressed } => {
                    let s = old(self).store@;
                    &&& final(self).todo_actions@ == old(self).todo_actions@ + deleter_actions(
                        s,
                        view as int,
                        pressed,
                    ) + checkmark_actions(s, view as int, pressed) + text_todo_actions(
                        s,
                        view as int,
                        pressed,
                    ) + input_todo_actions(s, view as int, pressed)
                    &&& final(self).input_actions@ == old(self).input_actions@
                        + text_input_actions(s, view as int, pressed) + input_input_actions(
                        s,
                        view as int,
                        pressed,
                    )
                },
                Notification::TextChanged { view, text } => {
                    let s = old(self).store@;
                    &&& final(self).todo_actions@ == old(self).todo_actions@
                        + cosmic_todo_actions(s, view as int, text)
                    &&& final(self).input_actions@ == old(self).input_actions@
                        + cosmic_input_actions(s, view as int, text)
                },
                Notification::Enter => {
                    let s = old(self).store@;
                    let f = old(self).focus.0;
                    if submits(s, f) {
                        &&& final(self).todo_actions@ == old(self).todo_actions@.push(
                            ModelTodoAction::Create(
                                the_input(s, model_of(s, f->0 as int) as int).text,
                            ),
                        )
                        &&& final(self).input_actions@.len() == old(self).input_actions@.len() + 1
                        &&& final(self).input_actions@.subrange(
                            0,
                            old(self).input_actions@.len() as int,
                        ) == old(self).input_actions@
                        &&& clears(final(self).input_actions@.last(), model_of(s, f->0 as int))
                    } else {
                        &&& final(self).todo_actions@ == old(self).todo_actions@
                        &&& final(self).input_actions@ == old(self).input_actions@
                    }
                },
            },
    {
        match notification {
            Notification::Pointer { view, pressed } => {
                handle_deleter_interaction(&self.store, *view, *pressed, &mut self.todo_actions);
                handle_checkmark_interaction(&self.store, *view, *pressed, &mut self.todo_actions);
                handle_text_interaction(
                    &self.store,
                    *view,
                    *pressed,
                    &mut self.todo_actions,
                    &mut self.input_actions,
                );
                handle_input_interaction(
                    &self.store,
                    *view,
                    *pressed,
                    &mut self.todo_actions,
                    &mut self.input_actions,
                );
            },
            Notification::TextChanged { view, text } => {
                handle_cosmic_change(
                    &self.store,
                    *view,
                    text,
                    &mut self.todo_actions,
                    &mut self.input_actions,
                );
            },
            Notification::Enter => {
                handle_enter(
                    &self.store,
                    &self.focus,
                    &mut self.todo_actions,
                    &mut self.input_actions,
                );
            },
        }
    }

    /// Runs one tick. Where a container is missing, nothing is done and the
    /// engine is as it was. Otherwise the queued actions are consumed, and the
    /// store, the focus and the effects are those of [`ticked`]; afterwards no
    /// pulse is pending and no view is left whose model is gone.
    pub fn tick(&mut self) -> (r: Result<Report, Fault>)
        requires
            old(self).wf(),
        ensures
            final(self).wf(),
            !old(self).ready() ==> r == Err::<Report, Fault>(Fault::MissingSingleton) && *final(self) == *old(self),
            old(self).ready() ==> {
                let w = ticked(
                    old(self).store@,
                    old(self).focus.0,
                    old(self).todo_actions@,
                    old(self).input_actions@,
                    old(self).set_focus@,
                    old(self).todo_list->0,
                    old(self).todo_input_container->0,
                );
                &&& r is Ok
                &&& r->Ok_0.effects@ == w.effects
                &&& r->Ok_0.diagnostics@ == stale_faults(
                    mutated(
                        old(self).store@,
                        old(self).todo_actions@,
                        old(self).input_actions@,
                    ).stale,
                )
                &&& final(self).store@ == w.slots
                &&& final(self).focus.0 == w.focus
                &&& final(self).todo_list == old(self).todo_list
                &&& final(self).todo_input_container == old(self).todo_input_container
                &&& final(self).todo_actions@.len() == 0
                &&& final(self).input_actions@.len() == 0
                &&& final(self).set_focus@.len() == 0
                &&& settled(final(self).store@)
            },
    {
        let (list, container) = match (self.todo_list, self.todo_input_container) {
            (Some(list), Some(container)) => (list, container),
            _ => {
                return Err(Fault::MissingSingleton);
            },
        };
        let ghost s0 = self.store@;
        let ghost f0 = self.focus.0;
        let mut commands = Commands::new();
        proof {
            assert(commands.spawned@ =~= Seq::empty());
            assert(commands.despawned@ =~= Seq::empty());
            assert(commands.stale@ =~= Seq::empty());
        }
        update_todo_model(&mut self.store, &mut commands, &self.todo_actions);
        update_input_model(&mut self.store, &mut commands, &self.input_actions);
        let stale = flush(&mut self.store, commands);
        self.todo_actions.clear();
        self.input_actions.clear();
        let ghost s1 = self.store@;
        proof {
            keeps_single_editable(s0, s1, f0);
        }
        let mut outbox: Vec<Effect> = Vec::new();
        let mut requests: Vec<SetFocus> = Vec::new();
        display_todos(&mut self.store, list, &mut outbox);
        display_text_input(&mut self.store, container, &mut outbox, &mut requests);
        let ghost s2 = self.store@;
        proof {
            keeps_single_editable(s1, s2, f0);
        }
        update_displayed_todos_text(&mut self.store, &mut outbox);
        let ghost s3 = self.store@;
        update_displayed_todos_text_checked(&mut self.store, &mut outbox);
        let ghost s4 = self.store@;
        update_displayed_todos_checkmark_checked(&mut self.store, &mut outbox);
        let ghost s5 = self.store@;
        update_displayed_input_text(&mut self.store, &mut outbox);
        let ghost s6 = self.store@;
        update_focus_main_input(&self.store, false, &mut requests);
        update_focus_todo(&self.store, false, &mut requests);
        update_focus_main_input(&self.store, true, &mut requests);
        update_focus_todo(&self.store, true, &mut requests);
        proof {
            sweep_keeps_editable(Rule::TodoText, s2);
            sweep_keeps_editable(Rule::TodoTextChecked, s3);
            sweep_keeps_editable(Rule::TodoCheckmarkChecked, s4);
            sweep_keeps_editable(Rule::InputText, s5);
            keeps_single_editable(s2, s3, f0);
            keeps_single_editable(s3, s4, f0);
            keeps_single_editable(s4, s5, f0);
            keeps_single_editable(s5, s6, f0);
            focus_run_keeps_single_editable(
                FocusState { slots: s6, focus: f0, effects: outbox@ },
                self.set_focus@,
                self.set_focus@.len(),
            );
        }
        handle_focus(&mut self.store, &mut self.focus, &mut outbox, &self.set_focus);
        self.set_focus.clear();
        proof {
            focus_run_keeps_single_editable(
                FocusState { slots: self.store@, focus: self.focus.0, effects: outbox@ },
                requests@,
                requests@.len(),
            );
        }
        handle_focus(&mut self.store, &mut self.focus, &mut outbox, &requests);
        let ghost s7 = self.store@;
        clear_pulses(&mut self.store);
        proof {
            calm_is_quiet(s7);
            keeps_single_editable(s7, self.store@, self.focus.0);
            cascade_settles(
                FocusState { slots: self.store@, focus: self.focus.0, effects: outbox@ },
            );
        }
        remove_displayed_todos(&mut self.store, &mut self.focus, &mut outbox);
        Ok(Report { effects: outbox, diagnostics: diagnose(&stale) })
    }
}

} // verus!
