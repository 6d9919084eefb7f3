use todomvc::record::{display_checked, InputModel, Record, Role, Style, TodoModel, ViewRecord};
use todomvc::store::{Lookup, Store};

#[test]
fn new_store_is_empty() {
    let s = Store::new();
    assert_eq!(s.len(), 0);
    assert_eq!(s.status(0), Lookup::Unallocated);
    assert!(s.get(0).is_none());
}

#[test]
fn insert_hands_out_consecutive_handles() {
    let mut s = Store::new();
    let a = s.insert(Record::Todo(TodoModel::new("a".to_string())));
    let b = s.insert(Record::Input(InputModel::new("b".to_string())));
    assert_eq!((a, b), (0, 1));
    assert_eq!(s.len(), 2);
    assert_eq!(s.status(a), Lookup::Live);
    assert_eq!(s.todo(a).unwrap().text, "a");
    assert_eq!(s.input(b).unwrap().text, "b");
    assert!(s.todo(b).is_none());
    assert!(s.input(a).is_none());
    assert!(s.is_model(a) && s.is_model(b));
}

#[test]
fn created_todo_is_unchecked_not_edited_and_fresh() {
    let t = TodoModel::new("x".to_string());
    assert_eq!(
        t,
        TodoModel {
            text: "x".to_string(),
            checked: false,
            editing: false,
            fresh: true,
            text_changed: false,
            checked_changed: false,
            editing_changed: false,
        }
    );
}

#[test]
fn created_input_is_not_edited_and_fresh() {
    let t = InputModel::new("".to_string());
    assert_eq!(
        t,
        InputModel {
            text: "".to_string(),
            editing: false,
            fresh: true,
            text_changed: false,
            editing_changed: false,
        }
    );
}

#[test]
fn destroyed_handle_is_stale_and_never_reused() {
    let mut s = Store::new();
    let a = s.insert(Record::Todo(TodoModel::new("a".to_string())));
    assert!(s.destroy(a));
    assert_eq!(s.status(a), Lookup::Stale);
    assert!(s.get(a).is_none());
    assert!(!s.destroy(a));
    let b = s.insert(Record::Todo(TodoModel::new("b".to_string())));
    assert_eq!(b, 1);
    assert_eq!(s.status(a), Lookup::Stale);
}

#[test]
fn destroy_of_a_made_up_handle_changes_nothing() {
    let mut s = Store::new();
    s.insert(Record::Todo(TodoModel::new("a".to_string())));
    assert!(!s.destroy(5));
    assert_eq!(s.len(), 1);
    assert_eq!(s.status(5), Lookup::Unallocated);
}

#[test]
fn reserve_hands_out_a_handle_without_a_record() {
    let mut s = Store::new();
    let h = s.reserve();
    assert_eq!(h, 0);
    assert_eq!(s.status(h), Lookup::Stale);
    assert_eq!(s.insert(Record::Todo(TodoModel::new("a".to_string()))), 1);
}

#[test]
fn a_record_is_a_model_or_a_view() {
    let mut s = Store::new();
    let m = s.insert(Record::Todo(TodoModel::new("a".to_string())));
    let v = s.insert(Record::View(ViewRecord::new(Role::TodoTextView, m, None, Style::Normal)));
    assert!(s.is_model(m));
    assert!(s.view_record(m).is_none());
    assert!(!s.is_model(v));
    assert_eq!(s.view_record(v).unwrap().model, m);
}

#[test]
fn put_replaces_the_record() {
    let mut s = Store::new();
    let m = s.insert(Record::Todo(TodoModel::new("a".to_string())));
    s.put(m, Record::Todo(TodoModel::new("b".to_string())));
    assert_eq!(s.todo(m).unwrap().text, "b");
}

#[test]
fn duplicate_is_equal() {
    let r = Record::View(ViewRecord::new(
        Role::TodoInput,
        3,
        Some("hi".to_string()),
        Style::Completed,
    ));
    assert_eq!(r.duplicate(), r);
    let t = Record::Todo(TodoModel::new("t".to_string()));
    assert_eq!(t.duplicate(), t);
    let i = Record::Input(InputModel::new("i".to_string()));
    assert_eq!(i.duplicate(), i);
}

#[test]
fn display_checked_gives_the_style_token() {
    assert_eq!(display_checked(true), Style::Completed);
    assert_eq!(display_checked(false), Style::Normal);
}

#[test]
fn view_builders_change_one_field() {
    let v = ViewRecord::new(Role::TodoTextView, 1, Some("a".to_string()), Style::Normal);
    assert!(!v.editable);
    assert_eq!(v.with_editable(true).editable, true);
    assert_eq!(v.with_text("b".to_string()).text, Some("b".to_string()));
    assert_eq!(v.with_style(Style::Completed).style, Style::Completed);
    assert_eq!(v.with_style(Style::Completed).text, Some("a".to_string()));
}

#[test]
fn views_of_lists_the_views_of_one_model_in_order() {
    let mut s = Store::new();
    let a = s.insert(Record::Todo(TodoModel::new("a".to_string())));
    let b = s.insert(Record::Todo(TodoModel::new("b".to_string())));
    let v1 = s.insert(Record::View(ViewRecord::new(Role::TodoTextView, a, None, Style::Normal)));
    let v2 = s.insert(Record::View(ViewRecord::new(Role::TodoRootView, b, None, Style::Normal)));
    let v3 = s.insert(Record::View(ViewRecord::new(Role::Plain, a, None, Style::Normal)));
    assert_eq!(s.views_of(a), vec![v1, v3]);
    assert_eq!(s.views_of(b), vec![v2]);
    assert_eq!(s.views_of(v1), Vec::<usize>::new());
    s.destroy(v1);
    assert_eq!(s.views_of(a), vec![v3]);
}
