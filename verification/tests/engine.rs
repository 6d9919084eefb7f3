use todomvc::action::{ModelInputAction, ModelTodoAction};
use todomvc::effect::{Effect, Fault, Widget};
use todomvc::engine::{diagnose, Engine};
use todomvc::focus::{Focus, SetFocus};
use todomvc::intake::Notification;
use todomvc::record::{InputModel, Record, Role, Style, TodoModel};
use todomvc::store::Lookup;

/// An engine after its first tick: list container 0, input container 1,
/// composition buffer 2, input view 3.
fn started() -> Engine {
    let mut e = Engine::new();
    assert_eq!(e.setup_ui(), (0, 1));
    e.tick().unwrap();
    e
}

/// As `started`, with the input view pressed once: the composition buffer
/// is being edited and its view is open for typing.
fn opened() -> Engine {
    let mut e = started();
    press(&mut e, 3);
    e.tick().unwrap();
    e
}

fn press(e: &mut Engine, view: usize) {
    e.notify(&Notification::Pointer { view, pressed: true });
}

fn type_text(e: &mut Engine, view: usize, text: &str) {
    e.notify(&Notification::TextChanged { view, text: text.to_string() });
}

/// Types `text` into the input view and submits it; the new todo item takes
/// the next seven handles.
fn submit(e: &mut Engine, text: &str) -> usize {
    type_text(e, 3, text);
    e.tick().unwrap();
    e.notify(&Notification::Enter);
    let h = e.store.len();
    e.tick().unwrap();
    h
}

fn editable_views(e: &Engine) -> usize {
    (0..e.store.len())
        .filter(|&v| e.store.view_record(v).map(|r| r.editable).unwrap_or(false))
        .count()
}

fn views_of(e: &Engine, model: usize) -> Vec<usize> {
    e.store.views_of(model)
}

fn snapshot(e: &Engine) -> Vec<Option<Record>> {
    (0..e.store.len()).map(|h| e.store.get(h).map(|r| r.duplicate())).collect()
}

#[test]
fn new_engine_is_empty() {
    let e = Engine::new();
    assert!(e.is_well_formed());
    assert_eq!(e.store.len(), 0);
    assert_eq!(e.focus, Focus(None));
    assert_eq!(e.todo_list, None);
    assert_eq!(e.todo_input_container, None);
    assert!(e.todo_actions.is_empty() && e.input_actions.is_empty());
}

#[test]
fn tick_without_containers_is_a_missing_singleton() {
    let mut e = Engine::new();
    e.todo_actions.push(ModelTodoAction::Create("a".to_string()));
    assert_eq!(e.tick(), Err(Fault::MissingSingleton));
    assert_eq!(e.store.len(), 0);
    assert_eq!(e.todo_actions, vec![ModelTodoAction::Create("a".to_string())]);
    e.todo_list = Some(0);
    assert_eq!(e.tick(), Err(Fault::MissingSingleton));
}

#[test]
fn setup_registers_the_containers_and_asks_for_the_buffer() {
    let mut e = Engine::new();
    let anchors = e.setup_ui();
    assert_eq!(anchors, (0, 1));
    assert_eq!(e.todo_list, Some(0));
    assert_eq!(e.todo_input_container, Some(1));
    assert_eq!(e.store.status(0), Lookup::Stale);
    assert_eq!(e.store.status(1), Lookup::Stale);
    assert_eq!(e.input_actions, vec![ModelInputAction::Create("".to_string())]);
}

#[test]
fn first_tick_builds_the_input_view_and_focuses_it() {
    let mut e = Engine::new();
    e.setup_ui();
    let report = e.tick().unwrap();
    assert!(report.diagnostics.is_empty());
    assert_eq!(
        report.effects,
        vec![
            Effect::CreateView {
                view: 3,
                widget: Widget::Editor,
                role: Role::TodoInput,
                model: 2,
                content: Some("".to_string()),
                style: Style::Normal,
            },
            Effect::Link { parent: 1, child: 3 },
            Effect::RequestFocus { target: Some(3) },
        ]
    );
    let mut buffer = InputModel::new("".to_string());
    buffer.fresh = false;
    assert_eq!(e.store.input(2), Some(&buffer));
    assert!(!e.store.input(2).unwrap().editing);
    assert_eq!(e.focus, Focus(Some(3)));
    assert!(!e.store.view_record(3).unwrap().editable);
    assert!(e.input_actions.is_empty());
}

#[test]
fn the_input_view_opens_once_the_buffer_is_asked_to_be_edited() {
    let mut e = started();
    press(&mut e, 3);
    assert_eq!(e.input_actions, vec![ModelInputAction::Edit(2, true)]);
    let report = e.tick().unwrap();
    assert_eq!(
        report.effects,
        vec![
            Effect::RequestFocus { target: Some(3) },
            Effect::SetReadOnly { view: 3, read_only: false },
        ]
    );
    assert!(e.store.input(2).unwrap().editing);
    assert!(e.store.view_record(3).unwrap().editable);
    assert_eq!(e.focus, Focus(Some(3)));
}

#[test]
fn create_adds_one_model_and_one_subtree() {
    let mut e = started();
    let before = snapshot(&e);
    e.todo_actions.push(ModelTodoAction::Create("buy milk".to_string()));
    let report = e.tick().unwrap();
    let after = snapshot(&e);
    assert_eq!(after.len(), before.len() + 7);
    assert_eq!(&after[..before.len()], &before[..]);
    let mut todo = TodoModel::new("buy milk".to_string());
    todo.fresh = false;
    assert_eq!(e.store.todo(4), Some(&todo));
    assert_eq!(views_of(&e, 4), vec![5, 6, 7, 8, 9, 10]);
    assert_eq!(report.effects.len(), 12);
    assert_eq!(report.effects[6], Effect::Link { parent: 0, child: 5 });
    let again = e.tick().unwrap();
    assert!(again.effects.is_empty());
    assert_eq!(snapshot(&e), after);
}

#[test]
fn delete_cascades_to_every_view_and_clears_focus() {
    let mut e = started();
    let h = submit(&mut e, "a");
    press(&mut e, h + 4);
    e.tick().unwrap();
    assert_eq!(e.focus, Focus(Some(h + 4)));
    e.todo_actions.push(ModelTodoAction::Delete(h));
    let report = e.tick().unwrap();
    assert_eq!(e.store.status(h), Lookup::Stale);
    assert!(views_of(&e, h).is_empty());
    assert_eq!(e.focus, Focus(None));
    assert_eq!(report.effects.iter().filter(|x| matches!(x, Effect::DestroyView { .. })).count(), 6);
}

#[test]
fn update_text_converges_and_does_not_oscillate() {
    let mut e = started();
    let h = submit(&mut e, "a");
    for _ in 0..3 {
        e.todo_actions.push(ModelTodoAction::UpdateText(h, "s".to_string()));
        e.tick().unwrap();
        assert_eq!(e.store.todo(h).unwrap().text, "s");
        assert_eq!(e.store.view_record(h + 4).unwrap().text, Some("s".to_string()));
    }
    let settled = snapshot(&e);
    for _ in 0..3 {
        let report = e.tick().unwrap();
        assert!(report.effects.is_empty());
        assert_eq!(snapshot(&e), settled);
    }
}

#[test]
fn at_most_one_view_is_editable_at_every_tick_boundary() {
    let mut e = started();
    assert_eq!(editable_views(&e), 0);
    press(&mut e, 3);
    e.tick().unwrap();
    assert_eq!(editable_views(&e), 1);
    assert!(e.store.view_record(3).unwrap().editable);
    let a = submit(&mut e, "a");
    assert!(editable_views(&e) <= 1);
    let b = submit(&mut e, "b");
    assert!(editable_views(&e) <= 1);
    press(&mut e, a + 4);
    e.tick().unwrap();
    assert_eq!(editable_views(&e), 1);
    assert!(e.store.view_record(a + 4).unwrap().editable);
    assert_eq!(e.focus, Focus(Some(a + 4)));
    press(&mut e, b + 4);
    e.tick().unwrap();
    assert_eq!(editable_views(&e), 1);
    assert!(e.store.view_record(b + 4).unwrap().editable);
    assert!(!e.store.view_record(a + 4).unwrap().editable);
    e.todo_actions.push(ModelTodoAction::Edit(a, true));
    e.todo_actions.push(ModelTodoAction::Edit(b, true));
    e.input_actions.push(ModelInputAction::Edit(2, true));
    e.tick().unwrap();
    assert!(editable_views(&e) <= 1);
    assert!(e.is_well_formed());
    e.store.set_editable(a + 4, true);
    e.store.set_editable(b + 4, true);
    assert!(!e.is_well_formed());
    e.store.set_editable(a + 4, false);
    e.store.set_editable(b + 4, false);
    e.focus = Focus(None);
    assert!(e.is_well_formed());
    e.todo_actions.push(ModelTodoAction::Delete(b));
    e.tick().unwrap();
    assert_eq!(editable_views(&e), 0);
}

#[test]
fn the_view_that_is_opened_gets_the_focus_whatever_its_handle() {
    let mut e = opened();
    let a = submit(&mut e, "a");
    // from the input view (low handle) to the text view (high handle)
    press(&mut e, a + 4);
    let report = e.tick().unwrap();
    assert_eq!(
        report.effects,
        vec![
            Effect::SetReadOnly { view: 3, read_only: true },
            Effect::RequestFocus { target: Some(3) },
            Effect::RequestFocus { target: Some(a + 4) },
            Effect::SetReadOnly { view: a + 4, read_only: false },
        ]
    );
    assert_eq!(e.focus, Focus(Some(a + 4)));
    assert!(e.store.view_record(a + 4).unwrap().editable);
    assert!(!e.store.input(2).unwrap().editing);
    // and back, from the high handle to the low one
    press(&mut e, 3);
    let report = e.tick().unwrap();
    assert_eq!(
        report.effects,
        vec![
            Effect::SetReadOnly { view: a + 4, read_only: true },
            Effect::RequestFocus { target: Some(a + 4) },
            Effect::RequestFocus { target: Some(3) },
            Effect::SetReadOnly { view: 3, read_only: false },
        ]
    );
    assert_eq!(e.focus, Focus(Some(3)));
    assert!(e.store.view_record(3).unwrap().editable);
    assert!(!e.store.view_record(a + 4).unwrap().editable);
    assert!(!e.store.todo(a).unwrap().editing);
    assert!(e.store.input(2).unwrap().editing);
}

#[test]
fn checked_round_trip_restyles_every_view() {
    let mut e = started();
    e.todo_actions.push(ModelTodoAction::Create("buy milk".to_string()));
    e.tick().unwrap();
    let h = 4;
    e.todo_actions.push(ModelTodoAction::UpdateChecked(h, true));
    let report = e.tick().unwrap();
    assert_eq!(
        report.effects,
        vec![
            Effect::SetStyle { view: 8, style: Style::Completed },
            Effect::SetStyle { view: 6, style: Style::Completed },
            Effect::SetStyle { view: 7, style: Style::Completed },
        ]
    );
    for v in [6, 7, 8] {
        assert_eq!(e.store.view_record(v).unwrap().style, Style::Completed);
    }
    e.todo_actions.push(ModelTodoAction::UpdateChecked(h, false));
    e.tick().unwrap();
    for v in views_of(&e, h) {
        assert_eq!(e.store.view_record(v).unwrap().style, Style::Normal);
    }
}

#[test]
fn submit_check_delete_scenario() {
    let mut e = started();
    type_text(&mut e, 3, "a");
    let report = e.tick().unwrap();
    assert_eq!(report.effects, vec![Effect::SetText { view: 3, text: "a".to_string() }]);
    e.notify(&Notification::Enter);
    assert_eq!(e.todo_actions, vec![ModelTodoAction::Create("a".to_string())]);
    e.tick().unwrap();
    let todos: Vec<usize> = (0..e.store.len()).filter(|&h| e.store.todo(h).is_some()).collect();
    assert_eq!(todos, vec![4]);
    let todo = e.store.todo(4).unwrap();
    assert_eq!(todo.text, "a");
    assert!(!todo.checked);
    assert_eq!(e.store.input(2).unwrap().text, "");
    assert_eq!(e.store.view_record(3).unwrap().text, Some("".to_string()));

    press(&mut e, 6);
    e.tick().unwrap();
    assert!(e.store.todo(4).unwrap().checked);
    assert_eq!(e.store.view_record(8).unwrap().style, Style::Completed);

    // the item is put into editing, so that the focus is on its text view
    press(&mut e, 8);
    e.tick().unwrap();
    assert_eq!(e.focus, Focus(Some(8)));

    press(&mut e, 9);
    let report = e.tick().unwrap();
    assert_eq!(e.store.status(4), Lookup::Stale);
    for v in 5..11 {
        assert_eq!(e.store.status(v), Lookup::Stale);
    }
    assert_eq!(e.focus, Focus(None));
    assert_eq!(report.effects.last(), Some(&Effect::RequestFocus { target: None }));
}

#[test]
fn submit_check_delete_with_the_focus_on_the_input_view() {
    let mut e = started();
    let h = submit(&mut e, "a");
    press(&mut e, h + 2);
    e.tick().unwrap();
    assert!(e.store.todo(h).unwrap().checked);
    assert_eq!(e.focus, Focus(Some(3)));
    press(&mut e, h + 5);
    let report = e.tick().unwrap();
    assert_eq!(e.store.status(h), Lookup::Stale);
    assert!(e.store.views_of(h).is_empty());
    // the focus never was on a view of the item: it stays on the input view
    assert_eq!(e.focus, Focus(Some(3)));
    assert_eq!(
        report.effects,
        (h + 1..h + 7).map(|view| Effect::DestroyView { view }).collect::<Vec<Effect>>()
    );
}

#[test]
fn deleting_one_todo_leaves_the_other_intact() {
    let mut e = started();
    let h1 = submit(&mut e, "one");
    let h2 = submit(&mut e, "two");
    e.todo_actions.push(ModelTodoAction::UpdateChecked(h2, true));
    e.tick().unwrap();
    // the surviving item is being edited and its text view holds the focus
    press(&mut e, h2 + 4);
    e.tick().unwrap();
    assert_eq!(e.focus, Focus(Some(h2 + 4)));
    assert!(e.store.view_record(h2 + 4).unwrap().editable);
    let before: Vec<Option<Record>> =
        (h2..h2 + 7).map(|h| e.store.get(h).map(|r| r.duplicate())).collect();
    assert!(before.iter().all(|r| r.is_some()));
    press(&mut e, h1 + 5);
    let report = e.tick().unwrap();
    assert_eq!(e.store.status(h1), Lookup::Stale);
    assert!(views_of(&e, h1).is_empty());
    let after: Vec<Option<Record>> =
        (h2..h2 + 7).map(|h| e.store.get(h).map(|r| r.duplicate())).collect();
    assert_eq!(before, after);
    assert_eq!(views_of(&e, h2), (h2 + 1..h2 + 7).collect::<Vec<usize>>());
    assert_eq!(e.focus, Focus(Some(h2 + 4)));
    assert!(e.store.view_record(h2 + 4).unwrap().editable);
    assert_eq!(
        report.effects,
        (h1 + 1..h1 + 7).map(|view| Effect::DestroyView { view }).collect::<Vec<Effect>>()
    );
}

#[test]
fn deleting_a_todo_leaves_the_input_view_and_its_focus_alone() {
    let mut e = opened();
    let h1 = submit(&mut e, "one");
    assert_eq!(e.focus, Focus(Some(3)));
    assert!(e.store.view_record(3).unwrap().editable);
    let input_view = e.store.get(3).map(|r| r.duplicate());
    press(&mut e, h1 + 5);
    let report = e.tick().unwrap();
    assert!(views_of(&e, h1).is_empty());
    assert_eq!(e.focus, Focus(Some(3)));
    assert_eq!(e.store.get(3).map(|r| r.duplicate()), input_view);
    assert!(!report.effects.iter().any(|x| matches!(x, Effect::SetReadOnly { .. })));
    assert!(!report.effects.iter().any(|x| matches!(x, Effect::RequestFocus { .. })));
}

#[test]
fn stale_actions_are_reported_and_do_not_stop_the_tick() {
    let mut e = started();
    let h = submit(&mut e, "a");
    e.todo_actions.push(ModelTodoAction::Delete(h));
    e.tick().unwrap();
    e.todo_actions.push(ModelTodoAction::UpdateText(h, "late".to_string()));
    e.todo_actions.push(ModelTodoAction::Create("b".to_string()));
    e.todo_actions.push(ModelTodoAction::Edit(999, true));
    let next = e.store.len();
    let report = e.tick().unwrap();
    assert_eq!(report.diagnostics, vec![Fault::StaleHandle(h), Fault::StaleHandle(999)]);
    assert_eq!(e.store.todo(next).unwrap().text, "b");
}

#[test]
fn pulses_live_for_one_tick() {
    let mut e = started();
    let h = submit(&mut e, "a");
    e.todo_actions.push(ModelTodoAction::UpdateText(h, "b".to_string()));
    e.todo_actions.push(ModelTodoAction::UpdateChecked(h, true));
    e.todo_actions.push(ModelTodoAction::Edit(h, true));
    e.tick().unwrap();
    let t = e.store.todo(h).unwrap();
    assert!(!t.fresh && !t.text_changed && !t.checked_changed && !t.editing_changed);
    assert_eq!((t.text.as_str(), t.checked, t.editing), ("b", true, true));
    assert_eq!(e.focus, Focus(Some(h + 4)));
}

#[test]
fn notify_leaves_store_and_focus_alone() {
    let mut e = started();
    let before = snapshot(&e);
    press(&mut e, 3);
    type_text(&mut e, 3, "x");
    e.notify(&Notification::Enter);
    e.notify(&Notification::Pointer { view: 3, pressed: false });
    assert_eq!(snapshot(&e), before);
    assert_eq!(e.focus, Focus(Some(3)));
    assert_eq!(e.todo_actions, vec![ModelTodoAction::Create("".to_string())]);
    assert_eq!(
        e.input_actions,
        vec![
            ModelInputAction::Edit(2, true),
            ModelInputAction::UpdateText(2, "x".to_string()),
            ModelInputAction::UpdateText(2, "".to_string()),
        ]
    );
}

#[test]
fn diagnose_words_each_handle_as_a_stale_handle() {
    assert_eq!(diagnose(&vec![]), vec![]);
    assert_eq!(diagnose(&vec![4, 2]), vec![Fault::StaleHandle(4), Fault::StaleHandle(2)]);
}

#[test]
fn outside_focus_requests_are_served_before_those_of_the_models() {
    let mut e = opened();
    let a = submit(&mut e, "a");
    e.request_focus(SetFocus(Some(a + 4)));
    assert_eq!(e.set_focus, vec![SetFocus(Some(a + 4))]);
    let report = e.tick().unwrap();
    assert!(e.set_focus.is_empty());
    assert_eq!(
        report.effects,
        vec![
            Effect::SetReadOnly { view: 3, read_only: true },
            Effect::RequestFocus { target: Some(a + 4) },
        ]
    );
    assert_eq!(e.focus, Focus(Some(a + 4)));
    assert_eq!(editable_views(&e), 0);
    e.request_focus(SetFocus(Some(a + 4)));
    press(&mut e, 3);
    e.tick().unwrap();
    assert_eq!(e.focus, Focus(Some(3)));
    assert!(e.store.view_record(3).unwrap().editable);
    e.request_focus(SetFocus(None));
    e.tick().unwrap();
    assert_eq!(e.focus, Focus(None));
    assert_eq!(editable_views(&e), 0);
    assert!(e.is_well_formed());
}

#[test]
fn two_creates_in_one_tick_give_two_subtrees() {
    let mut e = started();
    e.todo_actions.push(ModelTodoAction::Create("one".to_string()));
    e.todo_actions.push(ModelTodoAction::Create("two".to_string()));
    let report = e.tick().unwrap();
    assert_eq!(e.store.todo(4).unwrap().text, "one");
    assert_eq!(e.store.todo(5).unwrap().text, "two");
    assert_eq!(e.store.views_of(4), vec![6, 7, 8, 9, 10, 11]);
    assert_eq!(e.store.views_of(5), vec![12, 13, 14, 15, 16, 17]);
    assert_eq!(e.store.view_record(9).unwrap().text, Some("one".to_string()));
    assert_eq!(e.store.view_record(15).unwrap().text, Some("two".to_string()));
    assert_eq!(report.effects.len(), 24);
    assert_eq!(report.effects[18], Effect::Link { parent: 0, child: 12 });
    assert_eq!(e.store.len(), 18);
}

#[test]
fn a_mixed_batch_is_served_in_order_within_one_tick() {
    let mut e = started();
    let a = submit(&mut e, "a");
    let b = submit(&mut e, "b");
    e.todo_actions.push(ModelTodoAction::Delete(a));
    e.todo_actions.push(ModelTodoAction::UpdateText(a, "doomed".to_string()));
    e.todo_actions.push(ModelTodoAction::UpdateText(b, "kept".to_string()));
    e.todo_actions.push(ModelTodoAction::UpdateChecked(b, true));
    e.todo_actions.push(ModelTodoAction::Create("c".to_string()));
    let c = e.store.len();
    let report = e.tick().unwrap();
    assert!(report.diagnostics.is_empty());
    assert_eq!(e.store.status(a), Lookup::Stale);
    assert!(e.store.views_of(a).is_empty());
    let kept = e.store.todo(b).unwrap();
    assert_eq!((kept.text.as_str(), kept.checked), ("kept", true));
    assert_eq!(e.store.view_record(b + 4).unwrap().text, Some("kept".to_string()));
    assert_eq!(e.store.view_record(b + 4).unwrap().style, Style::Completed);
    assert_eq!(e.store.view_record(b + 3).unwrap().style, Style::Completed);
    assert_eq!(e.store.todo(c).unwrap().text, "c");
    assert_eq!(e.store.views_of(c).len(), 6);
    assert_eq!(e.focus, Focus(Some(3)));
}

#[test]
fn text_typed_into_a_todo_reaches_its_model_and_view() {
    let mut e = started();
    let a = submit(&mut e, "a");
    type_text(&mut e, a + 4, "ab");
    assert_eq!(e.todo_actions, vec![ModelTodoAction::UpdateText(a, "ab".to_string())]);
    let report = e.tick().unwrap();
    assert_eq!(report.effects, vec![Effect::SetText { view: a + 4, text: "ab".to_string() }]);
    assert_eq!(e.store.todo(a).unwrap().text, "ab");
}

#[test]
fn enter_with_the_focus_elsewhere_creates_nothing() {
    let mut e = started();
    let a = submit(&mut e, "a");
    press(&mut e, a + 4);
    e.tick().unwrap();
    assert_eq!(e.focus, Focus(Some(a + 4)));
    e.notify(&Notification::Enter);
    assert!(e.todo_actions.is_empty());
    assert!(e.input_actions.is_empty());
}
