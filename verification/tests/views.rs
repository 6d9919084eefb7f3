use todomvc::action::{ModelInputAction, ModelTodoAction};
use todomvc::cascade::remove_displayed_todos;
use todomvc::effect::{Effect, Widget};
use todomvc::focus::{focus_on, handle_focus, Focus, SetFocus};
use todomvc::intake::{
    handle_checkmark_interaction, handle_cosmic_change, handle_deleter_interaction, handle_enter,
    handle_input_interaction, handle_text_interaction, release_edits,
};
use todomvc::materialize::{commit_links, display_text_input, display_todo, display_todos};
use todomvc::propagate::{
    clear_pulses, sweep, update_displayed_input_text, update_displayed_todos_checkmark_checked,
    update_displayed_todos_text, update_displayed_todos_text_checked, update_focus_main_input,
    update_focus_todo, Rule,
};
use todomvc::record::{InputModel, Record, Role, Style, TodoModel, ViewRecord};
use todomvc::store::{Lookup, Store};
use todomvc::tree_builder::Tree;

fn view(role: Role, model: usize, text: Option<&str>, style: Style) -> Record {
    Record::View(ViewRecord::new(role, model, text.map(|t| t.to_string()), style))
}

/// A list container under 0, a todo item under 1 and its six views under 2 to 7.
fn shown_todo(text: &str) -> Store {
    let mut s = Store::new();
    s.reserve();
    s.insert(Record::Todo(TodoModel::new(text.to_string())));
    let mut out = Vec::new();
    display_todos(&mut s, 0, &mut out);
    s
}

/// A container under 0, a composition buffer under 1 and its view under 2.
fn shown_input(text: &str) -> Store {
    let mut s = Store::new();
    s.reserve();
    s.insert(Record::Input(InputModel::new(text.to_string())));
    let mut out = Vec::new();
    let mut requests = Vec::new();
    display_text_input(&mut s, 0, &mut out, &mut requests);
    s
}

/// As `shown_input`, with the composition buffer being edited.
fn shown_open_input(text: &str) -> Store {
    let mut s = shown_input(text);
    let mut buffer = s.input(1).unwrap().duplicate();
    buffer.editing = true;
    s.put(1, Record::Input(buffer));
    s
}

#[test]
fn display_todos_builds_six_views_and_links_them() {
    let mut s = Store::new();
    let list = s.reserve();
    let h = s.insert(Record::Todo(TodoModel::new("buy milk".to_string())));
    let mut out = Vec::new();
    display_todos(&mut s, list, &mut out);
    assert_eq!(s.len(), 8);
    assert!(!s.todo(h).unwrap().fresh);
    assert_eq!(s.get(2), Some(&view(Role::TodoRootView, h, None, Style::Normal)));
    assert_eq!(s.get(3), Some(&view(Role::TodoCheckmarkView, h, None, Style::Normal)));
    assert_eq!(s.get(4), Some(&view(Role::TodoCheckmarkView, h, None, Style::Normal)));
    assert_eq!(s.get(5), Some(&view(Role::TodoTextView, h, Some("buy milk"), Style::Normal)));
    assert_eq!(s.get(6), Some(&view(Role::TodoDeleterView, h, None, Style::Normal)));
    assert_eq!(s.get(7), Some(&view(Role::Plain, h, None, Style::Normal)));
    let create = |v: usize, widget: Widget, role: Role, content: Option<&str>| Effect::CreateView {
        view: v,
        widget,
        role,
        model: h,
        content: content.map(|t| t.to_string()),
        style: Style::Normal,
    };
    let link = |parent: usize, child: usize| Effect::Link { parent, child };
    assert_eq!(
        out,
        vec![
            create(2, Widget::Row, Role::TodoRootView, None),
            create(3, Widget::Button, Role::TodoCheckmarkView, None),
            create(4, Widget::Label, Role::TodoCheckmarkView, None),
            create(5, Widget::Editor, Role::TodoTextView, Some("buy milk")),
            create(6, Widget::Button, Role::TodoDeleterView, None),
            create(7, Widget::Label, Role::Plain, None),
            link(0, 2),
            link(2, 3),
            link(3, 4),
            link(2, 5),
            link(2, 6),
            link(6, 7),
        ]
    );
}

#[test]
fn display_todos_does_not_fire_twice() {
    let mut s = shown_todo("a");
    let mut out = Vec::new();
    display_todos(&mut s, 0, &mut out);
    assert!(out.is_empty());
    assert_eq!(s.len(), 8);
}

#[test]
fn display_todo_skips_what_is_not_a_fresh_todo() {
    let mut s = shown_todo("a");
    let mut out = Vec::new();
    display_todo(&mut s, 0, &mut out, 0);
    display_todo(&mut s, 0, &mut out, 1);
    display_todo(&mut s, 0, &mut out, 2);
    display_todo(&mut s, 0, &mut out, 99);
    assert!(out.is_empty());
    assert_eq!(s.len(), 8);
}

#[test]
fn display_todos_shows_a_checked_item_as_completed() {
    let mut s = Store::new();
    s.reserve();
    let mut t = TodoModel::new("done".to_string());
    t.checked = true;
    s.insert(Record::Todo(t));
    let mut out = Vec::new();
    display_todos(&mut s, 0, &mut out);
    assert_eq!(s.view_record(3).unwrap().style, Style::Completed);
    assert_eq!(s.view_record(4).unwrap().style, Style::Completed);
    assert_eq!(s.view_record(5).unwrap().style, Style::Completed);
    assert_eq!(s.view_record(2).unwrap().style, Style::Normal);
}

#[test]
fn display_text_input_builds_one_view_and_asks_for_focus() {
    let mut s = Store::new();
    let container = s.reserve();
    let m = s.insert(Record::Input(InputModel::new("".to_string())));
    let mut out = Vec::new();
    let mut requests = Vec::new();
    display_text_input(&mut s, container, &mut out, &mut requests);
    assert_eq!(s.len(), 3);
    assert!(!s.input(m).unwrap().fresh);
    assert_eq!(s.get(2), Some(&view(Role::TodoInput, m, Some(""), Style::Normal)));
    assert_eq!(
        out,
        vec![
            Effect::CreateView {
                view: 2,
                widget: Widget::Editor,
                role: Role::TodoInput,
                model: m,
                content: Some("".to_string()),
                style: Style::Normal,
            },
            Effect::Link { parent: 0, child: 2 },
        ]
    );
    assert_eq!(requests, vec![SetFocus(Some(2))]);
    display_text_input(&mut s, container, &mut out, &mut requests);
    assert_eq!(s.len(), 3);
    assert_eq!(requests.len(), 1);
}

#[test]
fn commit_links_emits_one_effect_per_pair() {
    let mut out = vec![Effect::DestroyView { view: 9 }];
    commit_links(Tree::new(1, vec![Tree::new_leaf(2), Tree::new_leaf(3)]), &mut out);
    assert_eq!(
        out,
        vec![
            Effect::DestroyView { view: 9 },
            Effect::Link { parent: 1, child: 2 },
            Effect::Link { parent: 1, child: 3 },
        ]
    );
}

#[test]
fn text_rule_pushes_changed_text_into_the_text_view_only() {
    let mut s = shown_todo("a");
    let mut t = s.todo(1).unwrap().duplicate();
    t.text = "b".to_string();
    t.text_changed = true;
    s.put(1, Record::Todo(t));
    let mut out = Vec::new();
    update_displayed_todos_text(&mut s, &mut out);
    assert_eq!(out, vec![Effect::SetText { view: 5, text: "b".to_string() }]);
    assert_eq!(s.view_record(5).unwrap().text, Some("b".to_string()));
    assert_eq!(s.view_record(2).unwrap().text, None);
    assert_eq!(s.view_record(3).unwrap().text, None);
}

#[test]
fn text_rule_needs_the_pulse() {
    let mut s = shown_todo("a");
    let mut t = s.todo(1).unwrap().duplicate();
    t.text = "b".to_string();
    s.put(1, Record::Todo(t));
    let mut out = Vec::new();
    update_displayed_todos_text(&mut s, &mut out);
    assert!(out.is_empty());
    assert_eq!(s.view_record(5).unwrap().text, Some("a".to_string()));
}

#[test]
fn checked_rules_restyle_text_and_checkmark_views() {
    let mut s = shown_todo("a");
    let mut t = s.todo(1).unwrap().duplicate();
    t.checked = true;
    t.checked_changed = true;
    s.put(1, Record::Todo(t));
    let mut out = Vec::new();
    update_displayed_todos_text_checked(&mut s, &mut out);
    assert_eq!(out, vec![Effect::SetStyle { view: 5, style: Style::Completed }]);
    update_displayed_todos_checkmark_checked(&mut s, &mut out);
    assert_eq!(
        out,
        vec![
            Effect::SetStyle { view: 5, style: Style::Completed },
            Effect::SetStyle { view: 3, style: Style::Completed },
            Effect::SetStyle { view: 4, style: Style::Completed },
        ]
    );
    assert_eq!(s.view_record(2).unwrap().style, Style::Normal);
    assert_eq!(s.view_record(6).unwrap().style, Style::Normal);
    assert_eq!(s.view_record(5).unwrap().text, Some("a".to_string()));
}

#[test]
fn input_rule_pushes_changed_text_into_the_input_view() {
    let mut s = shown_input("");
    let mut m = s.input(1).unwrap().duplicate();
    m.text = "abc".to_string();
    m.text_changed = true;
    s.put(1, Record::Input(m));
    let mut out = Vec::new();
    update_displayed_input_text(&mut s, &mut out);
    assert_eq!(out, vec![Effect::SetText { view: 2, text: "abc".to_string() }]);
    assert_eq!(s.view_record(2).unwrap().text, Some("abc".to_string()));
}

#[test]
fn sweep_is_idempotent() {
    let mut s = shown_todo("a");
    let mut t = s.todo(1).unwrap().duplicate();
    t.text = "b".to_string();
    t.text_changed = true;
    s.put(1, Record::Todo(t));
    let mut out = Vec::new();
    sweep(Rule::TodoText, &mut s, &mut out);
    let once: Vec<Option<Record>> = (0..s.len()).map(|h| s.get(h).map(|r| r.duplicate())).collect();
    sweep(Rule::TodoText, &mut s, &mut out);
    let twice: Vec<Option<Record>> =
        (0..s.len()).map(|h| s.get(h).map(|r| r.duplicate())).collect();
    assert_eq!(once, twice);
}

#[test]
fn clear_pulses_ends_every_pulse() {
    let mut s = Store::new();
    let mut t = TodoModel::new("a".to_string());
    t.text_changed = true;
    t.checked_changed = true;
    t.editing_changed = true;
    s.insert(Record::Todo(t));
    let mut i = InputModel::new("b".to_string());
    i.editing = true;
    i.text_changed = true;
    i.editing_changed = true;
    s.insert(Record::Input(i));
    s.insert(view(Role::TodoTextView, 0, Some("a"), Style::Normal));
    clear_pulses(&mut s);
    let t = s.todo(0).unwrap();
    assert!(!t.fresh && !t.text_changed && !t.checked_changed && !t.editing_changed);
    assert_eq!(t.text, "a");
    let i = s.input(1).unwrap();
    assert!(!i.fresh && !i.text_changed && !i.editing_changed);
    assert!(i.editing);
    assert_eq!(s.get(2), Some(&view(Role::TodoTextView, 0, Some("a"), Style::Normal)));
}

#[test]
fn focus_requests_follow_written_editing_flags() {
    let mut s = shown_todo("a");
    let mut requests = Vec::new();
    update_focus_todo(&s, true, &mut requests);
    update_focus_todo(&s, false, &mut requests);
    assert!(requests.is_empty());
    let mut t = s.todo(1).unwrap().duplicate();
    t.editing = true;
    t.editing_changed = true;
    s.put(1, Record::Todo(t));
    update_focus_todo(&s, false, &mut requests);
    update_focus_main_input(&s, false, &mut requests);
    update_focus_main_input(&s, true, &mut requests);
    assert!(requests.is_empty());
    update_focus_todo(&s, true, &mut requests);
    assert_eq!(requests, vec![SetFocus(Some(5))]);

    let mut s = shown_input("");
    let mut requests = Vec::new();
    let mut m = s.input(1).unwrap().duplicate();
    m.editing = false;
    m.editing_changed = true;
    s.put(1, Record::Input(m));
    update_focus_todo(&s, false, &mut requests);
    update_focus_main_input(&s, true, &mut requests);
    assert!(requests.is_empty());
    update_focus_main_input(&s, false, &mut requests);
    assert_eq!(requests, vec![SetFocus(Some(2))]);
}

#[test]
fn focus_opens_the_view_of_an_edited_model_and_locks_the_one_it_leaves() {
    let mut s = shown_open_input("");
    let mut focus = Focus(None);
    let mut out = Vec::new();
    focus_on(&mut s, &mut focus, &mut out, SetFocus(Some(2)));
    assert_eq!(focus, Focus(Some(2)));
    assert!(s.view_record(2).unwrap().editable);
    assert_eq!(
        out,
        vec![
            Effect::RequestFocus { target: Some(2) },
            Effect::SetReadOnly { view: 2, read_only: false },
        ]
    );
    let mut out = Vec::new();
    focus_on(&mut s, &mut focus, &mut out, SetFocus(None));
    assert_eq!(focus, Focus(None));
    assert!(!s.view_record(2).unwrap().editable);
    assert_eq!(
        out,
        vec![
            Effect::SetReadOnly { view: 2, read_only: true },
            Effect::RequestFocus { target: None },
        ]
    );
}

#[test]
fn focus_on_the_view_of_a_new_buffer_stays_read_only() {
    let mut s = shown_input("");
    let mut focus = Focus(None);
    let mut out = Vec::new();
    focus_on(&mut s, &mut focus, &mut out, SetFocus(Some(2)));
    assert_eq!(focus, Focus(Some(2)));
    assert!(!s.view_record(2).unwrap().editable);
    assert_eq!(out, vec![Effect::RequestFocus { target: Some(2) }]);
}

#[test]
fn focus_on_a_view_whose_model_is_not_edited_stays_read_only() {
    let mut s = shown_todo("a");
    let mut focus = Focus(None);
    let mut out = Vec::new();
    focus_on(&mut s, &mut focus, &mut out, SetFocus(Some(5)));
    assert_eq!(focus, Focus(Some(5)));
    assert!(!s.view_record(5).unwrap().editable);
    assert_eq!(out, vec![Effect::RequestFocus { target: Some(5) }]);
    assert!(!s.wants_edit(5));
    assert!(!s.is_editing(1));
}

#[test]
fn last_focus_request_wins() {
    let mut s = shown_open_input("");
    let mut focus = Focus(None);
    let mut out = Vec::new();
    handle_focus(
        &mut s,
        &mut focus,
        &mut out,
        &vec![SetFocus(Some(2)), SetFocus(None), SetFocus(Some(7)), SetFocus(Some(2))],
    );
    assert_eq!(focus, Focus(Some(2)));
    assert!(s.view_record(2).unwrap().editable);
    assert_eq!(
        out,
        vec![
            Effect::RequestFocus { target: Some(2) },
            Effect::SetReadOnly { view: 2, read_only: false },
            Effect::SetReadOnly { view: 2, read_only: true },
            Effect::RequestFocus { target: None },
            Effect::RequestFocus { target: Some(7) },
            Effect::RequestFocus { target: Some(2) },
            Effect::SetReadOnly { view: 2, read_only: false },
        ]
    );
}

#[test]
fn set_editable_ignores_what_is_no_view() {
    let mut s = shown_todo("a");
    s.set_editable(1, true);
    s.set_editable(40, true);
    assert_eq!(s.todo(1).unwrap().text, "a");
    s.set_editable(5, true);
    assert!(s.view_record(5).unwrap().editable);
}

#[test]
fn cascade_removes_every_view_of_a_destroyed_model_and_gives_up_focus() {
    let mut s = shown_todo("a");
    let mut focus = Focus(Some(5));
    s.destroy(1);
    let mut out = Vec::new();
    remove_displayed_todos(&mut s, &mut focus, &mut out);
    for v in 2..8 {
        assert_eq!(s.status(v), Lookup::Stale);
    }
    assert_eq!(focus, Focus(None));
    assert_eq!(
        out,
        vec![
            Effect::DestroyView { view: 2 },
            Effect::DestroyView { view: 3 },
            Effect::DestroyView { view: 4 },
            Effect::DestroyView { view: 5 },
            Effect::DestroyView { view: 6 },
            Effect::DestroyView { view: 7 },
            Effect::RequestFocus { target: None },
        ]
    );
}

#[test]
fn cascade_keeps_a_focus_that_is_on_a_surviving_view() {
    // list container 0, item 1 with views 2..=7, item 8 with views 9..=14
    let mut s = shown_todo("a");
    let mut second = TodoModel::new("b".to_string());
    second.editing = true;
    s.insert(Record::Todo(second));
    let mut out = Vec::new();
    display_todos(&mut s, 0, &mut out);
    assert_eq!(s.view_record(12).unwrap().role, Role::TodoTextView);
    s.set_editable(12, true);
    let mut focus = Focus(Some(12));
    let kept: Vec<Option<Record>> = (8..15).map(|h| s.get(h).map(|r| r.duplicate())).collect();
    s.destroy(1);
    let mut out = Vec::new();
    remove_displayed_todos(&mut s, &mut focus, &mut out);
    assert_eq!(focus, Focus(Some(12)));
    assert!(s.view_record(12).unwrap().editable);
    let after: Vec<Option<Record>> = (8..15).map(|h| s.get(h).map(|r| r.duplicate())).collect();
    assert_eq!(kept, after);
    assert_eq!(
        out,
        vec![
            Effect::DestroyView { view: 2 },
            Effect::DestroyView { view: 3 },
            Effect::DestroyView { view: 4 },
            Effect::DestroyView { view: 5 },
            Effect::DestroyView { view: 6 },
            Effect::DestroyView { view: 7 },
        ]
    );
}

#[test]
fn cascade_keeps_a_focus_that_is_on_no_view() {
    let mut s = shown_todo("a");
    s.destroy(1);
    let mut focus = Focus(Some(0));
    let mut out = Vec::new();
    remove_displayed_todos(&mut s, &mut focus, &mut out);
    assert_eq!(focus, Focus(Some(0)));
    assert_eq!(out.len(), 6);
    let mut focus = Focus(None);
    let mut s = shown_todo("a");
    s.destroy(1);
    let mut out = Vec::new();
    remove_displayed_todos(&mut s, &mut focus, &mut out);
    assert_eq!(focus, Focus(None));
    assert_eq!(out.len(), 6);
}

#[test]
fn cascade_without_orphans_changes_nothing() {
    let mut s = shown_todo("a");
    let mut focus = Focus(Some(5));
    let mut out = Vec::new();
    remove_displayed_todos(&mut s, &mut focus, &mut out);
    assert!(out.is_empty());
    assert_eq!(focus, Focus(Some(5)));
    assert_eq!(s.status(5), Lookup::Live);
}

#[test]
fn deleter_press_asks_for_deletion() {
    let s = shown_todo("a");
    let mut todo = Vec::new();
    handle_deleter_interaction(&s, 6, true, &mut todo);
    assert_eq!(todo, vec![ModelTodoAction::Delete(1)]);
    handle_deleter_interaction(&s, 6, false, &mut todo);
    handle_deleter_interaction(&s, 5, true, &mut todo);
    handle_deleter_interaction(&s, 1, true, &mut todo);
    handle_deleter_interaction(&s, 77, true, &mut todo);
    assert_eq!(todo.len(), 1);
}

#[test]
fn checkmark_press_asks_to_flip_checked() {
    let mut s = shown_todo("a");
    let mut todo = Vec::new();
    handle_checkmark_interaction(&s, 3, true, &mut todo);
    handle_checkmark_interaction(&s, 4, true, &mut todo);
    handle_checkmark_interaction(&s, 4, false, &mut todo);
    handle_checkmark_interaction(&s, 5, true, &mut todo);
    assert_eq!(
        todo,
        vec![ModelTodoAction::UpdateChecked(1, true), ModelTodoAction::UpdateChecked(1, true)]
    );
    s.destroy(1);
    handle_checkmark_interaction(&s, 3, true, &mut todo);
    assert_eq!(todo.len(), 2);
}

#[test]
fn text_press_releases_every_edit_then_starts_one() {
    let mut s = Store::new();
    s.reserve();
    let mut buffer = InputModel::new("".to_string());
    buffer.editing = true;
    s.insert(Record::Input(buffer));
    s.insert(Record::Todo(TodoModel::new("a".to_string())));
    let mut out = Vec::new();
    let mut requests = Vec::new();
    display_text_input(&mut s, 0, &mut out, &mut requests);
    display_todos(&mut s, 0, &mut out);
    // input view under 3, text view of the todo item under 7
    assert_eq!(s.view_record(3).unwrap().role, Role::TodoInput);
    assert_eq!(s.view_record(7).unwrap().role, Role::TodoTextView);
    let mut todo = Vec::new();
    let mut input = Vec::new();
    handle_text_interaction(&s, 7, true, &mut todo, &mut input);
    assert_eq!(todo, vec![ModelTodoAction::Edit(2, true)]);
    assert_eq!(input, vec![ModelInputAction::Edit(1, false)]);
    handle_text_interaction(&s, 7, false, &mut todo, &mut input);
    handle_text_interaction(&s, 3, true, &mut todo, &mut input);
    assert_eq!(todo.len(), 1);
    assert_eq!(input.len(), 1);

    let mut t = s.todo(2).unwrap().duplicate();
    t.editing = true;
    s.put(2, Record::Todo(t));
    let mut todo = Vec::new();
    let mut input = Vec::new();
    handle_input_interaction(&s, 3, true, &mut todo, &mut input);
    assert_eq!(todo, vec![ModelTodoAction::Edit(2, false)]);
    assert_eq!(
        input,
        vec![ModelInputAction::Edit(1, false), ModelInputAction::Edit(1, true)]
    );
    handle_input_interaction(&s, 7, true, &mut todo, &mut input);
    assert_eq!(todo.len(), 1);

    let mut todo = Vec::new();
    let mut input = Vec::new();
    release_edits(&s, &mut todo, &mut input);
    assert_eq!(todo, vec![ModelTodoAction::Edit(2, false)]);
    assert_eq!(input, vec![ModelInputAction::Edit(1, false)]);
}

#[test]
fn enter_submits_the_buffer_and_clears_it() {
    let mut s = shown_input("");
    let mut m = s.input(1).unwrap().duplicate();
    m.text = "buy milk".to_string();
    s.put(1, Record::Input(m));
    let mut todo = Vec::new();
    let mut input = Vec::new();
    handle_enter(&s, &Focus(Some(2)), &mut todo, &mut input);
    assert_eq!(todo, vec![ModelTodoAction::Create("buy milk".to_string())]);
    assert_eq!(input, vec![ModelInputAction::UpdateText(1, "".to_string())]);
}

#[test]
fn enter_without_focus_on_an_input_view_does_nothing() {
    let s = shown_input("x");
    let t = shown_todo("a");
    let mut todo = Vec::new();
    let mut input = Vec::new();
    handle_enter(&s, &Focus(None), &mut todo, &mut input);
    handle_enter(&s, &Focus(Some(1)), &mut todo, &mut input);
    handle_enter(&s, &Focus(Some(50)), &mut todo, &mut input);
    handle_enter(&t, &Focus(Some(5)), &mut todo, &mut input);
    assert!(todo.is_empty());
    assert!(input.is_empty());
}

#[test]
fn text_change_asks_the_model_of_the_view_to_follow() {
    let s = shown_todo("a");
    let mut todo = Vec::new();
    let mut input = Vec::new();
    handle_cosmic_change(&s, 5, &"ab".to_string(), &mut todo, &mut input);
    handle_cosmic_change(&s, 3, &"zz".to_string(), &mut todo, &mut input);
    assert_eq!(todo, vec![ModelTodoAction::UpdateText(1, "ab".to_string())]);
    assert!(input.is_empty());
    let s = shown_input("");
    let mut todo = Vec::new();
    handle_cosmic_change(&s, 2, &"q".to_string(), &mut todo, &mut input);
    assert!(todo.is_empty());
    assert_eq!(input, vec![ModelInputAction::UpdateText(1, "q".to_string())]);
}

#[test]
fn target_gives_the_model_of_a_view_of_the_role() {
    let s = shown_todo("a");
    assert_eq!(s.target(5, Role::TodoTextView), Some(1));
    assert_eq!(s.target(5, Role::TodoInput), None);
    assert_eq!(s.target(1, Role::TodoTextView), None);
    assert_eq!(s.target(100, Role::TodoTextView), None);
}

#[test]
fn display_todos_builds_one_subtree_for_each_fresh_item() {
    let mut s = Store::new();
    let list = s.reserve();
    let a = s.insert(Record::Todo(TodoModel::new("a".to_string())));
    let mut old = TodoModel::new("old".to_string());
    old.fresh = false;
    let b = s.insert(Record::Todo(old));
    s.insert(Record::Input(InputModel::new("".to_string())));
    let c = s.insert(Record::Todo(TodoModel::new("c".to_string())));
    let before = s.len();
    let mut out = Vec::new();
    display_todos(&mut s, list, &mut out);
    assert_eq!(s.len(), before + 12);
    assert_eq!(s.views_of(a), (before..before + 6).collect::<Vec<usize>>());
    assert_eq!(s.views_of(c), (before + 6..before + 12).collect::<Vec<usize>>());
    assert!(s.views_of(b).is_empty());
    let rows: Vec<usize> = (0..s.len())
        .filter(|&v| s.view_record(v).map(|r| r.role == Role::TodoRootView).unwrap_or(false))
        .collect();
    assert_eq!(rows, vec![before, before + 6]);
    assert_eq!(s.view_record(before).unwrap().model, a);
    assert_eq!(s.view_record(before + 6).unwrap().model, c);
    let under_list: Vec<usize> = out
        .iter()
        .filter_map(|x| match x {
            Effect::Link { parent, child } if *parent == list => Some(*child),
            _ => None,
        })
        .collect();
    assert_eq!(under_list, rows);
    assert_eq!(out.len(), 24);
    assert!(!s.todo(a).unwrap().fresh && !s.todo(c).unwrap().fresh);
    assert!(s.input(3).unwrap().fresh);
}
