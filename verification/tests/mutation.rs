use todomvc::action::{
    apply_input_action, apply_todo_action, flush, update_input_model, update_todo_model,
    Commands, ModelInputAction, ModelTodoAction,
};
use todomvc::record::{InputModel, Record, TodoModel};
use todomvc::store::{Lookup, Store};

fn store_with_todo(text: &str) -> (Store, usize) {
    let mut s = Store::new();
    let mut t = TodoModel::new(text.to_string());
    t.fresh = false;
    let h = s.insert(Record::Todo(t));
    (s, h)
}

#[test]
fn create_is_only_noted_until_the_flush() {
    let mut s = Store::new();
    let mut c = Commands::new();
    apply_todo_action(&mut s, &mut c, &ModelTodoAction::Create("buy milk".to_string()));
    assert_eq!(s.len(), 0);
    assert_eq!(c.spawned, vec![Record::Todo(TodoModel::new("buy milk".to_string()))]);
    let stale = flush(&mut s, c);
    assert!(stale.is_empty());
    assert_eq!(s.len(), 1);
    assert_eq!(s.todo(0), Some(&TodoModel::new("buy milk".to_string())));
}

#[test]
fn update_text_writes_the_field_and_sets_its_pulse() {
    let (mut s, h) = store_with_todo("a");
    let mut c = Commands::new();
    apply_todo_action(&mut s, &mut c, &ModelTodoAction::UpdateText(h, "b".to_string()));
    let t = s.todo(h).unwrap();
    assert_eq!(t.text, "b");
    assert!(t.text_changed);
    assert!(!t.checked_changed && !t.editing_changed && !t.fresh);
    assert!(c.stale.is_empty());
}

#[test]
fn update_checked_writes_the_field_and_sets_its_pulse() {
    let (mut s, h) = store_with_todo("a");
    let mut c = Commands::new();
    apply_todo_action(&mut s, &mut c, &ModelTodoAction::UpdateChecked(h, true));
    let t = s.todo(h).unwrap();
    assert!(t.checked && t.checked_changed);
    assert!(!t.text_changed && !t.editing_changed);
    assert_eq!(t.text, "a");
}

#[test]
fn edit_writes_the_field_and_sets_its_pulse() {
    let (mut s, h) = store_with_todo("a");
    let mut c = Commands::new();
    apply_todo_action(&mut s, &mut c, &ModelTodoAction::Edit(h, true));
    let t = s.todo(h).unwrap();
    assert!(t.editing && t.editing_changed);
    assert!(!t.text_changed && !t.checked_changed);
}

#[test]
fn stale_action_is_dropped_and_the_batch_goes_on() {
    let (mut s, h) = store_with_todo("a");
    let mut c = Commands::new();
    let actions = vec![
        ModelTodoAction::UpdateText(17, "x".to_string()),
        ModelTodoAction::UpdateChecked(h, true),
        ModelTodoAction::Edit(18, true),
        ModelTodoAction::Delete(19),
        ModelTodoAction::UpdateChecked(20, true),
    ];
    update_todo_model(&mut s, &mut c, &actions);
    assert_eq!(c.stale, vec![17, 18, 19, 20]);
    assert!(s.todo(h).unwrap().checked);
    assert!(c.despawned.is_empty());
}

#[test]
fn delete_takes_effect_at_the_flush_only() {
    let (mut s, h) = store_with_todo("a");
    let mut c = Commands::new();
    let actions = vec![
        ModelTodoAction::Delete(h),
        ModelTodoAction::UpdateText(h, "still here".to_string()),
        ModelTodoAction::Delete(h),
    ];
    update_todo_model(&mut s, &mut c, &actions);
    assert!(c.stale.is_empty());
    assert_eq!(c.despawned, vec![h, h]);
    assert_eq!(s.todo(h).unwrap().text, "still here");
    flush(&mut s, c);
    assert_eq!(s.status(h), Lookup::Stale);
    assert_eq!(s.len(), 1);
}

#[test]
fn created_record_is_not_seen_before_the_flush() {
    let mut s = Store::new();
    let mut c = Commands::new();
    let actions = vec![
        ModelTodoAction::Create("a".to_string()),
        ModelTodoAction::UpdateChecked(0, true),
    ];
    update_todo_model(&mut s, &mut c, &actions);
    assert_eq!(c.stale, vec![0]);
    let stale = flush(&mut s, c);
    assert_eq!(stale, vec![0]);
    assert_eq!(s.todo(0), Some(&TodoModel::new("a".to_string())));
}

#[test]
fn actions_are_served_in_arrival_order() {
    let (mut s, h) = store_with_todo("a");
    let mut c = Commands::new();
    let actions = vec![
        ModelTodoAction::UpdateText(h, "first".to_string()),
        ModelTodoAction::UpdateText(h, "second".to_string()),
        ModelTodoAction::Create("x".to_string()),
        ModelTodoAction::Create("y".to_string()),
    ];
    update_todo_model(&mut s, &mut c, &actions);
    assert_eq!(s.todo(h).unwrap().text, "second");
    flush(&mut s, c);
    assert_eq!(s.todo(1).unwrap().text, "x");
    assert_eq!(s.todo(2).unwrap().text, "y");
}

#[test]
fn todo_action_on_an_input_model_is_stale() {
    let mut s = Store::new();
    let i = s.insert(Record::Input(InputModel::new("".to_string())));
    let mut c = Commands::new();
    apply_todo_action(&mut s, &mut c, &ModelTodoAction::UpdateText(i, "x".to_string()));
    apply_todo_action(&mut s, &mut c, &ModelTodoAction::Delete(i));
    assert_eq!(c.stale, vec![i, i]);
    assert_eq!(s.input(i).unwrap().text, "");
}

#[test]
fn input_actions_write_text_and_editing() {
    let mut s = Store::new();
    let mut c = Commands::new();
    apply_input_action(&mut s, &mut c, &ModelInputAction::Create("".to_string()));
    flush(&mut s, c);
    assert_eq!(s.input(0), Some(&InputModel::new("".to_string())));
    let mut c = Commands::new();
    let actions = vec![
        ModelInputAction::UpdateText(0, "abc".to_string()),
        ModelInputAction::Edit(0, false),
        ModelInputAction::UpdateText(9, "zzz".to_string()),
        ModelInputAction::Edit(9, true),
    ];
    update_input_model(&mut s, &mut c, &actions);
    let m = s.input(0).unwrap();
    assert_eq!(m.text, "abc");
    assert!(!m.editing);
    assert!(m.text_changed && m.editing_changed);
    assert_eq!(c.stale, vec![9, 9]);
}

#[test]
fn flush_purges_then_appends() {
    let (mut s, h) = store_with_todo("a");
    let mut c = Commands::new();
    let actions = vec![ModelTodoAction::Create("b".to_string()), ModelTodoAction::Delete(h)];
    update_todo_model(&mut s, &mut c, &actions);
    flush(&mut s, c);
    assert_eq!(s.len(), 2);
    assert_eq!(s.status(0), Lookup::Stale);
    assert_eq!(s.todo(1).unwrap().text, "b");
}
